//! The error types of the asynchronous channel layer. The channels themselves
//! (multi-producer command channel, one-shot reply channel) are runtime
//! plumbing and live with the runtime, outside the verified core; they report
//! their failures with these types.

use vstd::prelude::*;

verus! {

/// Sending failed: every receiver was dropped. Carries the sender's reason.
#[derive(Debug)]
pub struct SendError(pub String);

impl SendError {
    /// The reason carried by the error.
    pub fn message(&self) -> (r: &String)
        ensures
            r == self.0,
    {
        &self.0
    }
}

/// Receiving failed: the send half was dropped (and nothing was left to
/// take).
#[derive(Debug)]
pub struct RecvError;

impl RecvError {
    /// The fixed reason this error stands for.
    pub fn message(&self) -> (r: &'static str)
        ensures
            r@ == "send half canceled"@,
    {
        "send half canceled"
    }
}

} // verus!
