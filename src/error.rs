use vstd::prelude::*;

verus! {

/// Every way in which a request to the AI service can fail.
#[derive(Debug, Clone, Copy, PartialEq, Eq, Structural)]
pub enum OpenAiError {
    /// The service refused the request under its content policy.
    Safety,
    /// The account behind the bot reached its spending limit.
    LimitReached,
    /// The service rejected the request for another reason.
    BadRequest,
    /// The service rejected the credential.
    Unauthorized,
    /// The transport failed (no status), or the service answered with a status
    /// that has no meaning of its own here.
    NetworkError(Option<u16>),
    /// An answer did not have the expected shape.
    Malformed,
}

/// What the bot tells a user whose request the service refused as unsafe.
pub const SAFETY_REPLY: &'static str = "Bonk!!! Go directly to horny jail";

/// What the bot tells a user when the service's budget is spent.
pub const LIMIT_REPLY: &'static str = "Looks like I'm all out of paint this month :(";

/// What the bot tells a user after any other failure.
pub const FAILURE_REPLY: &'static str = "Uh oh something went wrong while I was trying to respond!";

/// The user-facing text of each error.
pub open spec fn reply_spec(e: OpenAiError) -> Seq<char> {
    match e {
        OpenAiError::Safety => SAFETY_REPLY@,
        OpenAiError::LimitReached => LIMIT_REPLY@,
        _ => FAILURE_REPLY@,
    }
}

impl OpenAiError {
    /// The text that tells a user about this error.
    pub fn reply(&self) -> (r: &'static str)
        ensures
            r@ == reply_spec(*self),
    {
        match self {
            OpenAiError::Safety => SAFETY_REPLY,
            OpenAiError::LimitReached => LIMIT_REPLY,
            _ => FAILURE_REPLY,
        }
    }
}

} // verus!
