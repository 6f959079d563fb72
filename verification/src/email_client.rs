//! Model of the e-mail dispatch gateway.
//!
//! The real service hands messages to an HTTP-based e-mail transport; the
//! workflows are verified against this model, in which a delivered message
//! lands in an outbox and a failed dispatch delivers nothing.

use vstd::prelude::*;

verus! {

/// One outbound e-mail as handed to the transport.
pub struct EmailMessage {
    pub to: String,
    pub subject: String,
    pub html_body: String,
    pub text_body: String,
}

/// Dispatch one message. `outcome` is the transport's answer: on `None` the
/// message lands in the outbox; on `Some(cause)` the dispatch fails with that
/// cause and the outbox is untouched.
pub fn send_email(
    outbox: &mut Vec<EmailMessage>,
    message: EmailMessage,
    outcome: &Option<String>,
) -> (r: Result<(), String>)
    ensures
        r is Ok <==> outcome is None,
        outcome is None ==> final(outbox)@ == old(outbox)@.push(message),
        outcome is Some ==> final(outbox)@ == old(outbox)@,
        r matches Err(c) ==> outcome matches Some(cause) && c@ == cause@,
{
    match outcome {
        None => {
            outbox.push(message);
            Ok(())
        },
        Some(cause) => Err(cause.clone()),
    }
}

} // verus!
