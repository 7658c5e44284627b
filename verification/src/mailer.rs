//! What every delivery backend offers, and how a delivery fails.

use crate::message::Message;
use crate::text::error_message;
use crate::text::format_error;
use crate::text::format_response;
use crate::text::response_message;
use vstd::prelude::*;

verus! {

/// A delivery backend: it takes a message and answers with the identifiers
/// that the provider gave it, or with the failure.
pub trait Mailer: Send + Sync {
    fn send(&self, message: &Message<'_>) -> (r: Result<Vec<String>, MailerError>);
}

/// How a delivery fails. There are two ways and no third.
#[derive(Debug)]
pub enum MailerError {
    /// The provider answered, and its answer was no success: the status
    /// code and the body of the answer.
    UnexpectedResponse(u16, String),
    /// The request or the answer was lost on the way: the cause, in words.
    UnexpectedError(String),
}

impl MailerError {
    /// The words of the failure.
    pub open spec fn message(self) -> Seq<char> {
        match self {
            MailerError::UnexpectedResponse(status, body) => response_message(status, body@),
            MailerError::UnexpectedError(cause) => error_message(cause@),
        }
    }

    /// The failure in words, for a log.
    pub fn to_string(&self) -> (r: String)
        ensures
            r@ == self.message(),
    {
        match self {
            MailerError::UnexpectedResponse(status, body) => {
                format_response(*status, body.as_str())
            },
            MailerError::UnexpectedError(cause) => format_error(cause.as_str()),
        }
    }
}

} // verus!
