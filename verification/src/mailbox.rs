//! Validated e-mail addresses and mailboxes.

use vstd::prelude::*;

verus! {

/// `lettre::Address`, an address as the mail crate holds it. Nothing is
/// known of its inside; it is only handed from the parser to the builder.
#[verifier::external_type_specification]
#[verifier::external_body]
pub struct ExLettreAddress(lettre::Address);

/// What the address parser gives for a text: the parsed address, or nothing
/// where it refuses the text.
pub uninterp spec fn parsed_address(text: Seq<char>) -> Option<lettre::Address>;

/// Whether the address parser accepts a text as `local-part@domain`.
pub open spec fn address_syntax_ok(text: Seq<char>) -> bool {
    parsed_address(text) is Some
}

/// Calls `<lettre::Address as FromStr>::from_str` through `str::parse`. What
/// the parser gives depends on the text alone and is named `parsed_address`;
/// a refusal comes back as `None`.
#[verifier::external_body]
fn parse_address(text: &str) -> (parsed: Option<lettre::Address>)
    ensures
        parsed == parsed_address(text@),
{
    text.parse::<lettre::Address>().ok()
}

/// An e-mail address that the parser has accepted.
#[derive(Debug)]
pub struct EmailAddress {
    text: String,
}

impl View for EmailAddress {
    type V = Seq<char>;

    closed spec fn view(&self) -> Seq<char> {
        self.text@
    }
}

impl EmailAddress {
    #[verifier::type_invariant]
    spec fn accepted(self) -> bool {
        address_syntax_ok(self.text@)
    }

    /// Validates a text as an address. Succeeds exactly on the texts the
    /// parser accepts, and keeps the text as it was given.
    pub fn parse(text: String) -> (address: Option<EmailAddress>)
        ensures
            address.is_some() == address_syntax_ok(text@),
            address matches Some(a) ==> a@ == text@,
    {
        match parse_address(text.as_str()) {
            Some(_) => Some(EmailAddress { text }),
            None => None,
        }
    }

    /// The address in the form the message builder takes: what the parser
    /// gives for this address's text. An address was accepted when it was
    /// made, so there always is such a form.
    pub fn transport_form(&self) -> (parsed: Option<lettre::Address>)
        ensures
            parsed == parsed_address(self@),
            parsed is Some,
    {
        parse_address(self.as_str())
    }

    /// The address as text: always one the parser accepts.
    pub fn as_str(&self) -> (text: &str)
        ensures
            text@ == self@,
            address_syntax_ok(text@),
    {
        proof {
            use_type_invariant(self);
        }
        self.text.as_str()
    }

}

impl Clone for EmailAddress {
    /// A copy with the same text.
    fn clone(&self) -> (copy: EmailAddress)
        ensures
            copy@ == self@,
    {
        proof {
            use_type_invariant(self);
        }
        EmailAddress { text: self.text.clone() }
    }
}

/// The mathematical value of a [`Mailbox`].
pub struct MailboxView {
    pub name: Option<Seq<char>>,
    pub address: Seq<char>,
}

/// A display name, which may be absent, with a validated address.
#[derive(Debug)]
pub struct Mailbox {
    pub name: Option<String>,
    pub email: EmailAddress,
}

/// The value of a name that may be absent.
pub open spec fn name_view(name: Option<String>) -> Option<Seq<char>> {
    match name {
        Some(text) => Some(text@),
        None => None,
    }
}

impl View for Mailbox {
    type V = MailboxView;

    open spec fn view(&self) -> MailboxView {
        MailboxView { name: name_view(self.name), address: self.email@ }
    }
}

impl Mailbox {
    /// Pairs a name with an address.
    pub fn new(name: Option<String>, email: EmailAddress) -> (mailbox: Mailbox)
        ensures
            mailbox@ == (MailboxView { name: name_view(name), address: email@ }),
    {
        Mailbox { name, email }
    }

}

impl Clone for Mailbox {
    /// A copy with the same name and address.
    fn clone(&self) -> (copy: Mailbox)
        ensures
            copy@ == self@,
    {
        let name = match &self.name {
            Some(text) => Some(text.clone()),
            None => None,
        };
        Mailbox { name, email: self.email.clone() }
    }
}

} // verus!
