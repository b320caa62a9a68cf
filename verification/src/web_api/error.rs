use vstd::prelude::*;

verus! {

/// Why a login or a feed request came to nothing.
#[derive(Debug, PartialEq, Eq, Structural, Clone, Copy)]
pub enum ClientError {
    /// The account asks for a second factor, which this client cannot give.
    UnableToPerform2FA,
    /// The root page holds no CSRF token.
    UnableToGetCsrfToken,
    /// The request failed, or its reply was not what the endpoint answers with.
    HttpRequest,
}

} // verus!
