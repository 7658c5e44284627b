//! The backend that delivers nothing.

use crate::generic_mailer::GenericMailer;
use crate::generic_mailer::GenericMailerError;
use crate::message::Message;
use vstd::prelude::*;

verus! {

/// Takes every message and sends none: for tests, and for where no mail
/// must leave.
pub struct NoopMailer;

impl GenericMailer for NoopMailer {
    fn send(&self, message: &Message<'_>) -> (r: Result<Vec<String>, GenericMailerError>)
        ensures
            r is Ok,
            r->Ok_0@ == Seq::<String>::empty(),
    {
        Ok(Vec::new())
    }
}

} // verus!
