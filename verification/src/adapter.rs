//! The adapter from the campaign notification shape to the canonical mail.

use vstd::prelude::*;
use crate::content::{
    declaration_of, lemma_tags_differ, rendered_body, resolved_type, tag_of,
    ContentTypeDeclaration, DeclarationView, TransportContentType,
};
use crate::mail::{Mail, MailView};
use crate::mailbox::{EmailAddress, Mailbox, MailboxView};

verus! {

/// One entry of a notification's recipient list.
#[derive(Debug)]
pub struct Recipient {
    pub email: EmailAddress,
    pub name: String,
}

/// The campaign a notification belongs to; it carries the sender.
#[derive(Debug)]
pub struct Campaign {
    pub from_email: Mailbox,
}

/// A campaign notification as it arrives.
#[derive(Debug)]
pub struct ListMonkPayload {
    pub subject: String,
    pub body: String,
    pub content_type: String,
    pub campaign: Campaign,
    pub recipients: Vec<Recipient>,
}

/// A campaign notification after its parts have been resolved: the content
/// type rewritten, the sender taken from the campaign, one recipient chosen.
#[derive(Debug)]
pub struct ListMonkMail {
    pub subject: String,
    pub body: String,
    pub content_type: ContentTypeDeclaration,
    pub from: Mailbox,
    pub to: Mailbox,
}

/// Why a notification cannot be adapted.
#[derive(Debug, Clone, Copy, PartialEq, Eq, Structural)]
pub enum AdaptError {
    /// A required part is missing: the recipient list is empty.
    MalformedRequest,
}

/// The mathematical value of a [`Recipient`].
pub struct RecipientView {
    pub email: Seq<char>,
    pub name: Seq<char>,
}

/// The mathematical value of a [`ListMonkPayload`].
pub struct ListMonkPayloadView {
    pub subject: Seq<char>,
    pub body: Seq<char>,
    pub content_type: Seq<char>,
    pub sender: MailboxView,
    pub recipients: Seq<RecipientView>,
}

impl View for Recipient {
    type V = RecipientView;

    open spec fn view(&self) -> RecipientView {
        RecipientView { email: self.email@, name: self.name@ }
    }
}

impl View for Campaign {
    type V = MailboxView;

    open spec fn view(&self) -> MailboxView {
        self.from_email@
    }
}

impl View for ListMonkPayload {
    type V = ListMonkPayloadView;

    open spec fn view(&self) -> ListMonkPayloadView {
        ListMonkPayloadView {
            subject: self.subject@,
            body: self.body@,
            content_type: self.content_type@,
            sender: self.campaign@,
            recipients: self.recipients@.map_values(|recipient: Recipient| recipient@),
        }
    }
}

impl View for ListMonkMail {
    type V = MailView;

    open spec fn view(&self) -> MailView {
        MailView {
            subject: self.subject@,
            body: self.body@,
            content_type: self.content_type@,
            from: self.from@,
            to: self.to@,
        }
    }
}

/// The declaration a notification's declaration becomes: `Markdown` turns
/// into the tag `html`, every other declaration stays.
pub open spec fn rewritten(declaration: DeclarationView) -> DeclarationView {
    match declaration {
        DeclarationView::Markdown => DeclarationView::Other("html"@),
        _ => declaration,
    }
}

/// The mailbox made of a recipient entry: its name, always present, and its
/// address.
pub open spec fn recipient_mailbox(recipient: RecipientView) -> MailboxView {
    MailboxView { name: Some(recipient.name), address: recipient.email }
}

/// What adapting a notification gives: an error on an empty recipient list,
/// else the mail to the first recipient.
pub open spec fn adapted(payload: ListMonkPayloadView) -> Result<MailView, AdaptError> {
    if payload.recipients.len() == 0 {
        Err(AdaptError::MalformedRequest)
    } else {
        Ok(
            MailView {
                subject: payload.subject,
                body: payload.body,
                content_type: rewritten(declaration_of(payload.content_type)),
                from: payload.sender,
                to: recipient_mailbox(payload.recipients[0]),
            },
        )
    }
}

/// Reads a notification's content-type tag, rewriting `markdown` to `html`.
pub fn adapt_content_type(tag: String) -> (declaration: ContentTypeDeclaration)
    ensures
        declaration@ == rewritten(declaration_of(tag@)),
{
    match ContentTypeDeclaration::from_tag(tag) {
        ContentTypeDeclaration::Markdown => ContentTypeDeclaration::Other("html".to_owned()),
        other => other,
    }
}

/// The sender of a campaign.
pub fn campaign_sender(campaign: Campaign) -> (sender: Mailbox)
    ensures
        sender@ == campaign@,
{
    campaign.from_email
}

/// The mailbox of the first recipient; the entries after it are not looked
/// at. An empty list is refused.
pub fn first_recipient(recipients: &Vec<Recipient>) -> (chosen: Result<Mailbox, AdaptError>)
    ensures
        chosen.is_err() == (recipients@.len() == 0),
        chosen matches Err(e) ==> e == AdaptError::MalformedRequest,
        chosen matches Ok(mailbox) ==> mailbox@ == recipient_mailbox(recipients@[0]@),
{
    if recipients.len() == 0 {
        Err(AdaptError::MalformedRequest)
    } else {
        let first = &recipients[0];
        Ok(Mailbox::new(Some(first.name.clone()), first.email.clone()))
    }
}

impl ListMonkMail {
    /// Resolves the parts of a notification.
    pub fn from_payload(payload: ListMonkPayload) -> (resolved: Result<ListMonkMail, AdaptError>)
        ensures
            match resolved {
                Ok(mail) => adapted(payload@) == Ok::<MailView, AdaptError>(mail@),
                Err(e) => adapted(payload@) == Err::<MailView, AdaptError>(e),
            },
    {
        let to = match first_recipient(&payload.recipients) {
            Ok(mailbox) => mailbox,
            Err(e) => {
                return Err(e);
            },
        };
        Ok(
            ListMonkMail {
                subject: payload.subject,
                body: payload.body,
                content_type: adapt_content_type(payload.content_type),
                from: campaign_sender(payload.campaign),
                to,
            },
        )
    }
}

impl From<ListMonkMail> for Mail {
    /// The canonical mail of a resolved notification: every part is carried
    /// over as it is.
    fn from(value: ListMonkMail) -> (mail: Mail) {
        Mail {
            subject: value.subject,
            body: value.body,
            content_type: value.content_type,
            from: value.from,
            to: value.to,
        }
    }
}

impl vstd::std_specs::convert::FromSpecImpl<ListMonkMail> for Mail {
    open spec fn obeys_from_spec() -> bool {
        true
    }

    open spec fn from_spec(value: ListMonkMail) -> Mail {
        Mail {
            subject: value.subject,
            body: value.body,
            content_type: value.content_type,
            from: value.from,
            to: value.to,
        }
    }
}

/// Adapts a campaign notification to the canonical mail. Fails exactly when
/// the recipient list is empty; otherwise the mail goes to the first
/// recipient, from the campaign's sender, with subject and body as given and
/// the content type rewritten.
pub fn adapt(payload: ListMonkPayload) -> (result: Result<Mail, AdaptError>)
    ensures
        match result {
            Ok(mail) => adapted(payload@) == Ok::<MailView, AdaptError>(mail@),
            Err(e) => adapted(payload@) == Err::<MailView, AdaptError>(e),
        },
{
    match ListMonkMail::from_payload(payload) {
        Ok(resolved) => Ok(Mail::from(resolved)),
        Err(e) => Err(e),
    }
}

/// A notification declared `markdown` is adapted, when it is adapted at all,
/// to the tag `html`, never to `markdown`.
pub proof fn lemma_markdown_becomes_html(payload: ListMonkPayloadView)
    requires
        payload.content_type == "markdown"@,
    ensures
        adapted(payload) matches Ok(mail) ==> tag_of(mail.content_type) == "html"@ && tag_of(
            mail.content_type,
        ) != "markdown"@,
{
    lemma_tags_differ();
}

/// However long the recipient list is, the adapted mail goes to its first
/// entry, by that entry's name and address; the entries after it play no part.
pub proof fn lemma_first_recipient_only(payload: ListMonkPayloadView, other: ListMonkPayloadView)
    requires
        payload.recipients.len() >= 2,
        other.recipients.len() >= 1,
        other.recipients[0] == payload.recipients[0],
        other.subject == payload.subject,
        other.body == payload.body,
        other.content_type == payload.content_type,
        other.sender == payload.sender,
    ensures
        adapted(payload) is Ok,
        adapted(payload)->Ok_0.to.name == Some(payload.recipients[0].name),
        adapted(payload)->Ok_0.to.address == payload.recipients[0].email,
        adapted(other) == adapted(payload),
{
}

/// A notification is refused, as malformed, exactly when it has no recipient.
pub proof fn lemma_no_recipient_refused(payload: ListMonkPayloadView)
    ensures
        payload.recipients.len() == 0 <==> adapted(payload) is Err,
        payload.recipients.len() == 0 ==> adapted(payload) == Err::<MailView, AdaptError>(
            AdaptError::MalformedRequest,
        ),
{
}

/// An adapted declaration is never `Markdown`, so the body of an adapted mail
/// is never converted: it goes out as it came in, as `text/plain` when the
/// notification said `plain` and as `text/html` otherwise.
pub proof fn lemma_adapted_body_unconverted(body: Seq<char>, tag: Seq<char>)
    ensures
        !(rewritten(declaration_of(tag)) is Markdown),
        rendered_body(body, rewritten(declaration_of(tag))) == body,
        resolved_type(rewritten(declaration_of(tag))) == (if tag == "plain"@ {
            TransportContentType::TextPlain
        } else {
            TransportContentType::TextHtml
        }),
{
}

} // verus!
