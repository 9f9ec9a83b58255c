//! What comes back from one call to a remote endpoint, as plain values.

use vstd::prelude::*;

verus! {

/// The only status that counts as success.
pub const STATUS_OK: u16 = 200;

/// The seconds after which a call that has not been answered is given up;
/// it then counts as unanswered.
pub const CALL_TIMEOUT_SECONDS: u64 = 30;

/// The outcome of one call: either nothing came back, or a status came back
/// together with the body, where the body could be decoded.
#[derive(Debug, PartialEq, Eq)]
pub enum Reply<T> {
    /// The endpoint could not be reached or did not answer.
    Unreachable,
    /// The endpoint answered; `body` is `None` where the body was not of the
    /// expected shape.
    Answered { status: u16, body: Option<T> },
}

/// Why a reply does not carry a usable body.
#[derive(Debug, PartialEq, Eq, Structural, Clone, Copy)]
pub enum ReplyError {
    /// Nothing came back.
    NoResponse,
    /// A status other than 200 came back.
    NonOkCode(u16),
    /// Status 200 came back with a body that could not be decoded.
    MalformedBody,
}

impl<T> Reply<T> {
    /// The status that came back, if any did.
    pub open spec fn spec_status(self) -> Option<u16> {
        match self {
            Reply::Unreachable => None,
            Reply::Answered { status, body } => Some(status),
        }
    }

    /// The decoded body of a reply with status 200, or the reason why there
    /// is none. The status is looked at before the body.
    pub open spec fn spec_accept(self) -> Result<T, ReplyError> {
        match self {
            Reply::Unreachable => Err(ReplyError::NoResponse),
            Reply::Answered { status, body } => if status != STATUS_OK {
                Err(ReplyError::NonOkCode(status))
            } else {
                match body {
                    Some(value) => Ok(value),
                    None => Err(ReplyError::MalformedBody),
                }
            },
        }
    }

    /// The status that came back, if any did.
    pub fn status(&self) -> (status: Option<u16>)
        ensures
            status == self.spec_status(),
    {
        match self {
            Reply::Unreachable => None,
            Reply::Answered { status, body: _ } => Some(*status),
        }
    }

    /// Takes the decoded body out of a reply with status 200; any other
    /// reply is an error.
    pub fn accept(self) -> (outcome: Result<T, ReplyError>)
        ensures
            outcome == self.spec_accept(),
    {
        match self {
            Reply::Unreachable => Err(ReplyError::NoResponse),
            Reply::Answered { status, body } => {
                if status != STATUS_OK {
                    Err(ReplyError::NonOkCode(status))
                } else {
                    match body {
                        Some(value) => Ok(value),
                        None => Err(ReplyError::MalformedBody),
                    }
                }
            },
        }
    }
}

} // verus!
