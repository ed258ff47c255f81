//! Dispatch: from a canonical mail to a transport-ready message, and from the
//! delivery agent's answer to the outcome reported to the caller.

use vstd::prelude::*;
use crate::content::{render, rendered_body, resolved_type, TransportContentType};
use crate::mail::{Mail, MailView};
use crate::mailbox::{Mailbox, MailboxView};

verus! {

/// `lettre::Message`, a transport-ready message. Nothing is known of its
/// inside; it is handed to the caller for the delivery agent.
#[verifier::external_type_specification]
#[verifier::external_body]
pub struct ExLettreMessage(lettre::Message);

/// `lettre::error::Error`, the message builder's refusal. Nothing is known
/// of its inside.
#[verifier::external_type_specification]
#[verifier::external_body]
pub struct ExLettreError(lettre::error::Error);

/// A mail whose body has been rendered and whose content type is resolved.
#[derive(Debug)]
pub struct Outgoing {
    pub from: Mailbox,
    pub to: Mailbox,
    pub subject: String,
    pub body: String,
    pub content_type: TransportContentType,
}

/// The mathematical value of an [`Outgoing`].
pub struct OutgoingView {
    pub from: MailboxView,
    pub to: MailboxView,
    pub subject: Seq<char>,
    pub body: Seq<char>,
    pub content_type: TransportContentType,
}

impl View for Outgoing {
    type V = OutgoingView;

    open spec fn view(&self) -> OutgoingView {
        OutgoingView {
            from: self.from@,
            to: self.to@,
            subject: self.subject@,
            body: self.body@,
            content_type: self.content_type,
        }
    }
}

/// Where a dispatch failed.
#[derive(Debug, Clone, Copy, PartialEq, Eq, Structural)]
pub enum DispatchError {
    /// The parts did not assemble into a transport-ready message.
    MessageConstruction,
    /// The delivery agent refused the message or failed to deliver it.
    Transport,
}

/// What the caller is told of a dispatch.
#[derive(Debug, Clone, Copy, PartialEq, Eq, Structural)]
pub enum Outcome {
    Success,
    InternalError,
}

/// What a mail goes out as: sender, recipient and subject as they are, the
/// body rendered and the content type resolved under the mail's declaration.
pub open spec fn prepared(mail: MailView) -> OutgoingView {
    OutgoingView {
        from: mail.from,
        to: mail.to,
        subject: mail.subject,
        body: rendered_body(mail.body, mail.content_type),
        content_type: resolved_type(mail.content_type),
    }
}

/// The outcome of a dispatch that ended with the given result.
pub open spec fn outcome_of(result: Result<(), DispatchError>) -> Outcome {
    match result {
        Ok(_) => Outcome::Success,
        Err(_) => Outcome::InternalError,
    }
}

/// The HTTP status that reports an outcome.
pub open spec fn status_of(outcome: Outcome) -> u16 {
    match outcome {
        Outcome::Success => 200u16,
        Outcome::InternalError => 500u16,
    }
}

/// Calls `lettre::Message::builder()` and, on the builder, `from`, `to`,
/// `subject`, `header` (with `ContentType::TEXT_PLAIN` or
/// `ContentType::TEXT_HTML`) and `body`; the two mailboxes are made with
/// `lettre::message::Mailbox::new`. The builder stamps the message with the
/// current date and may refuse the parts, so nothing is claimed of the result.
#[verifier::external_body]
fn build_message(
    from_name: Option<String>,
    from: lettre::Address,
    to_name: Option<String>,
    to: lettre::Address,
    subject: String,
    body: String,
    content_type: TransportContentType,
) -> (built: Result<lettre::Message, lettre::error::Error>) {
    let header = match content_type {
        TransportContentType::TextPlain => lettre::message::header::ContentType::TEXT_PLAIN,
        TransportContentType::TextHtml => lettre::message::header::ContentType::TEXT_HTML,
    };
    lettre::Message::builder()
        .from(lettre::message::Mailbox::new(from_name, from))
        .to(lettre::message::Mailbox::new(to_name, to))
        .subject(subject)
        .header(header)
        .body(body)
}

/// Renders a mail's body and resolves its content type.
pub fn prepare(mail: Mail) -> (out: Outgoing)
    ensures
        out@ == prepared(mail@),
{
    let (body, content_type) = render(mail.body, &mail.content_type);
    Outgoing { from: mail.from, to: mail.to, subject: mail.subject, body, content_type }
}

/// Maps what the message builder returned: a built message is handed on, a
/// refusal becomes `MessageConstruction`.
pub fn construction_result(built: Result<lettre::Message, lettre::error::Error>) -> (result: Result<
    lettre::Message,
    DispatchError,
>)
    ensures
        match built {
            Ok(message) => result == Ok::<lettre::Message, DispatchError>(message),
            Err(_) => result == Err::<lettre::Message, DispatchError>(
                DispatchError::MessageConstruction,
            ),
        },
{
    match built {
        Ok(message) => Ok(message),
        Err(_) => Err(DispatchError::MessageConstruction),
    }
}

/// Assembles the transport-ready message of an outgoing mail. The only
/// failure is `MessageConstruction`; whether the builder accepts the parts is
/// the builder's decision.
pub fn assemble(out: Outgoing) -> (result: Result<lettre::Message, DispatchError>)
    ensures
        result matches Err(e) ==> e == DispatchError::MessageConstruction,
{
    let from = match out.from.email.transport_form() {
        Some(address) => address,
        None => {
            return Err(DispatchError::MessageConstruction);
        },
    };
    let to = match out.to.email.transport_form() {
        Some(address) => address,
        None => {
            return Err(DispatchError::MessageConstruction);
        },
    };
    construction_result(
        build_message(out.from.name, from, out.to.name, to, out.subject, out.body, out.content_type),
    )
}

/// Renders a mail and assembles its transport-ready message, for one
/// delivery attempt.
pub fn compose(mail: Mail) -> (result: Result<lettre::Message, DispatchError>)
    ensures
        result matches Err(e) ==> e == DispatchError::MessageConstruction,
{
    assemble(prepare(mail))
}

/// Maps the delivery agent's answer: an accepted message ends the dispatch
/// well, a failed delivery is a `Transport` error.
pub fn transport_result(delivered: bool) -> (result: Result<(), DispatchError>)
    ensures
        result == (if delivered {
            Ok::<(), DispatchError>(())
        } else {
            Err::<(), DispatchError>(DispatchError::Transport)
        }),
{
    if delivered {
        Ok(())
    } else {
        Err(DispatchError::Transport)
    }
}

/// The outcome reported for a dispatch: `Success` when it ended well,
/// `InternalError` on any failure, whichever step it came from.
pub fn conclude(result: Result<(), DispatchError>) -> (outcome: Outcome)
    ensures
        outcome == outcome_of(result),
{
    match result {
        Ok(_) => Outcome::Success,
        Err(_) => Outcome::InternalError,
    }
}

impl Outcome {
    /// The HTTP status that reports this outcome: 200 or 500.
    pub fn status_code(&self) -> (code: u16)
        ensures
            code == status_of(*self),
    {
        match self {
            Outcome::Success => 200,
            Outcome::InternalError => 500,
        }
    }
}

/// A failed dispatch is reported as status 500, whether the message could not
/// be built or the delivery agent failed; only a delivered message is
/// reported as 200.
pub proof fn lemma_failure_is_500(result: Result<(), DispatchError>)
    ensures
        result is Err ==> status_of(outcome_of(result)) == 500,
        result is Ok ==> status_of(outcome_of(result)) == 200,
{
}

} // verus!
