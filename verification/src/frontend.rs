use vstd::prelude::*;

verus! {

/// The answer to a ping of the submission frontend.
pub fn route_ping() -> (r: &'static str)
    ensures
        r@ == "JJS frontend"@,
{
    "JJS frontend"
}

/// An access token.
#[derive(Debug, PartialEq, Eq)]
pub struct AuthToken {
    pub buf: Vec<u8>,
}

/// The token of an anonymous user: an empty one.
pub fn route_auth_anonymous() -> (r: AuthToken)
    ensures
        r.buf@.len() == 0,
{
    AuthToken { buf: Vec::new() }
}

/// A failure of the submission frontend.
#[derive(Debug, PartialEq, Eq, Clone, Copy)]
pub enum FrontendError {
    Internal,
}

impl FrontendError {
    /// The HTTP status the failure is answered with: 500 for an internal
    /// failure.
    pub fn status_code(&self) -> (r: u16)
        ensures
            r == 500,
    {
        match self {
            FrontendError::Internal => 500,
        }
    }
}

} // verus!
