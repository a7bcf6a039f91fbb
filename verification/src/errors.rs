//! The classified failures of a login attempt.

use vstd::prelude::*;
use vstd::string::StringExecFns;

use crate::session::UserSession;

verus! {

/// Everything that can go wrong between handing in credentials and holding a
/// session token. Each failure is returned to the caller as one of these;
/// nothing is retried or swallowed.
#[derive(Debug)]
pub enum LoginError {
    /// The HTTP client could not be constructed (configuration-level, not
    /// request-level); carries the builder's message.
    ClientError(String),
    /// A candidate `Set-Cookie` value could not be decoded as text; the scan
    /// is aborted.
    HeaderParseError,
    /// The scan completed and no matching cookie was seen: the expected shape
    /// of a rejected login.
    UserSessionNotFound,
    /// The request failed at the transport layer (DNS, connect, TLS,
    /// timeout); carries the transport's message.
    NetworkError(String),
}

/// The result of a login attempt.
pub type LoginResult = Result<UserSession, LoginError>;

/// The text `message` returns for each failure.
pub open spec fn message_spec(e: LoginError) -> Seq<char> {
    match e {
        LoginError::ClientError(m) => "Failed to create HTTP client: "@ + m@,
        LoginError::HeaderParseError => "Failed to parse cookie header"@,
        LoginError::UserSessionNotFound => "User session cookie not found in response"@,
        LoginError::NetworkError(m) => "Network error occurred: "@ + m@,
    }
}

impl LoginError {
    /// A human-readable description of the failure, with the underlying
    /// message preserved where one was carried.
    pub fn message(&self) -> (r: String)
        ensures
            r@ == message_spec(*self),
    {
        match self {
            LoginError::ClientError(m) => {
                "Failed to create HTTP client: ".to_owned().concat(m.as_str())
            },
            LoginError::HeaderParseError => "Failed to parse cookie header".to_owned(),
            LoginError::UserSessionNotFound => {
                "User session cookie not found in response".to_owned()
            },
            LoginError::NetworkError(m) => {
                "Network error occurred: ".to_owned().concat(m.as_str())
            },
        }
    }
}

} // verus!
