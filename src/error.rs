//! The failures of token authentication and how each one is answered over HTTP.
use vstd::prelude::*;
use vstd::string::StringExecFns;

verus! {

/// HTTP status for a request that did not authenticate.
pub const UNAUTHORIZED: u16 = 401;

/// HTTP status for a failure on the server's side.
pub const INTERNAL_SERVER_ERROR: u16 = 500;

/// Why a request could not be authenticated.
#[derive(Debug)]
pub enum AuthError {
    /// No usable bearer credential was presented.
    MissingToken,
    /// The token failed to decode, its signature did not verify, or one of its
    /// claims (audience, issuer, expiry) was not acceptable. These causes are
    /// deliberately not told apart.
    InvalidToken,
    /// No published key carries the identifier named by the token.
    KeyNotFound(String),
    /// Fetching the provider's metadata or key set failed.
    NetworkError(String),
    /// A published key could not be turned into a verifying key.
    KeyConstructionError,
}

impl AuthError {
    /// Whether the failure lies with the credential rather than the server.
    pub open spec fn is_client_failure(&self) -> bool {
        ||| self is MissingToken
        ||| self is InvalidToken
        ||| self is KeyNotFound
    }

    /// The text sent back to the client.
    pub open spec fn body_text(&self) -> Seq<char> {
        match self {
            AuthError::MissingToken => "Missing or malformed Authorization header"@,
            AuthError::InvalidToken => "The token provided is invalid"@,
            AuthError::KeyNotFound(kid) => "Could not find a public key for the given token KID: "@
                + kid@,
            _ => "Internal Server Error"@,
        }
    }

    /// The HTTP status answering this failure.
    pub fn status_code(&self) -> (r: u16)
        ensures
            r == (if self.is_client_failure() {
                UNAUTHORIZED
            } else {
                INTERNAL_SERVER_ERROR
            }),
    {
        match self {
            AuthError::MissingToken | AuthError::InvalidToken | AuthError::KeyNotFound(_) => {
                UNAUTHORIZED
            },
            _ => INTERNAL_SERVER_ERROR,
        }
    }

    /// Whether the response carries a bearer challenge
    /// (`WWW-Authenticate: Bearer error="invalid_token"`).
    pub fn has_challenge(&self) -> (r: bool)
        ensures
            r == self.is_client_failure(),
    {
        match self {
            AuthError::MissingToken | AuthError::InvalidToken | AuthError::KeyNotFound(_) => true,
            _ => false,
        }
    }

    /// The response body. Server-side failures share one text, so a client
    /// cannot tell an unreachable provider from a malformed key.
    pub fn response_body(&self) -> (r: String)
        ensures
            r@ == self.body_text(),
    {
        match self {
            AuthError::MissingToken => String::from_str("Missing or malformed Authorization header"),
            AuthError::InvalidToken => String::from_str("The token provided is invalid"),
            AuthError::KeyNotFound(kid) => {
                let mut text = String::from_str(
                    "Could not find a public key for the given token KID: ",
                );
                text.append(kid.as_str());
                text
            },
            _ => String::from_str("Internal Server Error"),
        }
    }
}

/// Server-side failures reach the client with the same body, whatever their
/// cause (their status and the absence of a challenge are shared too, by the
/// contracts of `status_code` and `has_challenge`).
pub proof fn lemma_server_failures_indistinguishable(a: AuthError, b: AuthError)
    requires
        !a.is_client_failure(),
        !b.is_client_failure(),
    ensures
        a.body_text() == b.body_text(),
{
}

} // verus!
