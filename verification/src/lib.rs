//! Authentication against the NicoNico account service: building the login
//! request's fixed parts and extracting the session token from the response's
//! `Set-Cookie` headers.

pub mod client;
pub mod errors;
pub mod scanner;
pub mod session;

pub use client::{complete_login, form_fields, login_url, parse_response_header, user_agent,
    TransportOutcome};
pub use errors::{LoginError, LoginResult};
pub use scanner::extract_session;
pub use session::{Credentials, SecretText, UserSession};
