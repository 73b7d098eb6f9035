//! The kinds of failure a command can end in.

use vstd::prelude::*;

verus! {

/// Why a command failed. The first three and the last come from the chat
/// platform; `InvalidArgument` is also what this library answers to input
/// it cannot make sense of.
#[derive(Clone, Copy, Debug, PartialEq, Eq, Structural)]
pub enum ErrorKind {
    /// The role, member or channel does not exist.
    NotFound,
    /// The platform denied the request.
    Forbidden,
    /// The platform asked to slow down.
    RateLimited,
    /// An argument of the command is malformed.
    InvalidArgument,
    /// The network failed.
    Transient,
}

impl ErrorKind {
    /// Whether trying the same request again later may help.
    pub open spec fn spec_is_retryable(self) -> bool {
        self == ErrorKind::RateLimited || self == ErrorKind::Transient
    }

    /// Whether trying the same request again later may help.
    #[verifier::when_used_as_spec(spec_is_retryable)]
    pub fn is_retryable(self) -> (r: bool)
        ensures
            r == self.spec_is_retryable(),
    {
        match self {
            ErrorKind::RateLimited | ErrorKind::Transient => true,
            ErrorKind::NotFound | ErrorKind::Forbidden | ErrorKind::InvalidArgument => false,
        }
    }

    /// A sentence for the user.
    pub fn message(self) -> (r: &'static str)
        ensures
            r@ == match self {
                ErrorKind::NotFound => "The role, member or channel was not found"@,
                ErrorKind::Forbidden => "The platform denied the request"@,
                ErrorKind::RateLimited => "Too many requests, try again later"@,
                ErrorKind::InvalidArgument => "An argument is malformed"@,
                ErrorKind::Transient => "The network failed, try again later"@,
            },
    {
        match self {
            ErrorKind::NotFound => "The role, member or channel was not found",
            ErrorKind::Forbidden => "The platform denied the request",
            ErrorKind::RateLimited => "Too many requests, try again later",
            ErrorKind::InvalidArgument => "An argument is malformed",
            ErrorKind::Transient => "The network failed, try again later",
        }
    }
}

} // verus!
