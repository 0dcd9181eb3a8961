//! Composing the outgoing message of a `mail` run.

use vstd::prelude::*;

use lettre::message::header::{ContentDisposition, ContentType};
use lettre::message::{Mailbox, MultiPart, SinglePart};
use lettre::Message;

use crate::date::Date;
use crate::mail::MailPlan;

verus! {

#[verifier::external_type_specification]
#[verifier::external_body]
pub struct ExMessage(lettre::Message);

#[verifier::external_type_specification]
#[verifier::external_body]
pub struct ExMailbox(lettre::message::Mailbox);

#[verifier::external_type_specification]
#[verifier::external_body]
pub struct ExAddressError(lettre::address::AddressError);

#[verifier::external_type_specification]
#[verifier::external_body]
pub struct ExEmailError(lettre::error::Error);

/// Whether lettre reads the text as a mailbox (`user@domain`, optionally
/// with a display name).
pub uninterp spec fn accepts_mailbox(s: Seq<char>) -> bool;

/// Relies on `<lettre::message::Mailbox as FromStr>::from_str`: whether it
/// succeeds depends on the text alone.
#[verifier::external_body]
fn parse_mailbox(s: &str) -> (r: Result<Mailbox, lettre::address::AddressError>)
    ensures
        r is Ok <==> accepts_mailbox(s@),
{
    s.parse::<Mailbox>()
}

/// Relies on lettre's `MessageBuilder`, `MultiPart::mixed` and `SinglePart`:
/// a message dated now from `from` to `to`, with a plain-text part `body` and
/// the attachment `data` under `attachment_name`.
#[verifier::external_body]
fn build_message(
    from: Mailbox,
    to: Mailbox,
    subject: String,
    body: String,
    attachment_name: &str,
    data: Vec<u8>,
) -> (r: Result<Message, lettre::error::Error>) {
    let text = SinglePart::builder().content_type(ContentType::TEXT_PLAIN).body(body);
    let attachment = SinglePart::builder().header(ContentType::TEXT_PLAIN).header(
        ContentDisposition::attachment(attachment_name),
    ).body(data);
    Message::builder().from(from).to(to).date_now().subject(subject).multipart(
        MultiPart::mixed().singlepart(text).singlepart(attachment),
    )
}

/// Why the message could not be composed.
#[derive(Debug)]
pub enum MailError {
    /// The sender address does not parse.
    InvalidSender(String),
    /// The receiver address does not parse.
    InvalidReceiver(String),
    /// The message builder refused the parts.
    Compose,
}

/// The message of `plan`: its subject, the time `sent_at` as body text, and
/// `data` attached as `attachment_name`. Fails on the first address that
/// does not parse, sender first.
pub fn compose_message(plan: &MailPlan, sent_at: &Date, attachment_name: &str, data: Vec<u8>) -> (r:
    Result<Message, MailError>)
    ensures
        match r {
            Ok(_) => accepts_mailbox(plan.from@) && accepts_mailbox(plan.to@),
            Err(MailError::InvalidSender(s)) => s@ == plan.from@ && !accepts_mailbox(plan.from@),
            Err(MailError::InvalidReceiver(s)) => s@ == plan.to@ && accepts_mailbox(plan.from@)
                && !accepts_mailbox(plan.to@),
            Err(MailError::Compose) => accepts_mailbox(plan.from@) && accepts_mailbox(plan.to@),
        },
{
    let from = match parse_mailbox(plan.from.as_str()) {
        Ok(m) => m,
        Err(_) => {
            return Err(MailError::InvalidSender(plan.from.clone()));
        },
    };
    let to = match parse_mailbox(plan.to.as_str()) {
        Ok(m) => m,
        Err(_) => {
            return Err(MailError::InvalidReceiver(plan.to.clone()));
        },
    };
    let body = sent_at.timestamp_text();
    match build_message(from, to, plan.subject.clone(), body, attachment_name, data) {
        Ok(m) => Ok(m),
        Err(_) => Err(MailError::Compose),
    }
}

} // verus!
