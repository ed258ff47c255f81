//! The canonical mail that every inbound request is turned into.

use vstd::prelude::*;
use crate::content::{declaration_of, ContentTypeDeclaration, DeclarationView};
use crate::mailbox::{Mailbox, MailboxView};

verus! {

/// One message to one recipient, fully populated.
#[derive(Debug)]
pub struct Mail {
    pub subject: String,
    pub body: String,
    pub content_type: ContentTypeDeclaration,
    pub from: Mailbox,
    pub to: Mailbox,
}

/// The mathematical value of a [`Mail`].
pub struct MailView {
    pub subject: Seq<char>,
    pub body: Seq<char>,
    pub content_type: DeclarationView,
    pub from: MailboxView,
    pub to: MailboxView,
}

impl View for Mail {
    type V = MailView;

    open spec fn view(&self) -> MailView {
        MailView {
            subject: self.subject@,
            body: self.body@,
            content_type: self.content_type@,
            from: self.from@,
            to: self.to@,
        }
    }
}

impl Mail {
    /// Builds a mail from its five parts; the content type is given as a tag.
    pub fn new(
        subject: String,
        body: String,
        content_type: String,
        from: Mailbox,
        to: Mailbox,
    ) -> (mail: Mail)
        ensures
            mail@ == (MailView {
                subject: subject@,
                body: body@,
                content_type: declaration_of(content_type@),
                from: from@,
                to: to@,
            }),
    {
        Mail {
            subject,
            body,
            content_type: ContentTypeDeclaration::from_tag(content_type),
            from,
            to,
        }
    }
}

} // verus!
