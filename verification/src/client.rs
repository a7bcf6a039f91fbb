//! The login client's verifiable half: the fixed parts of the request, and
//! the classification of what the transport brought back.
//!
//! The outbound call itself (building the HTTP client with redirects
//! disabled, posting the form, awaiting the response) is I/O and lives with
//! the caller; everything it needs — endpoint, client identifier, form
//! fields — and everything done with its outcome is here, verified.

use vstd::prelude::*;

use crate::errors::{LoginError, LoginResult};
use crate::scanner::{extract_session, scan_result_matches};
use crate::session::{secret_chars, Credentials, UserSession};

verus! {

/// The http crate's map of response headers, in which a name such as
/// `Set-Cookie` may carry several values. Opaque to the verifier; contracts
/// speak of it through [`set_cookie_values`].
#[verifier::external_type_specification]
#[verifier::external_body]
#[verifier::reject_recursive_types(T)]
pub struct ExHeaderMap<T>(reqwest::header::HeaderMap<T>);

/// The http crate's single header value: raw bytes, not necessarily text.
#[verifier::external_type_specification]
#[verifier::external_body]
pub struct ExHeaderValue(reqwest::header::HeaderValue);

/// The bytes of every `Set-Cookie` value a header map holds, in the order
/// the map holds them.
pub uninterp spec fn set_cookie_values(h: reqwest::header::HeaderMap) -> Seq<Seq<u8>>;

/// Relies on `HeaderMap::get_all` and `HeaderValue::as_bytes`: the map hands
/// out every value stored under `Set-Cookie` (the name compared without
/// regard to case), in insertion order, each as its raw bytes.
#[verifier::external_body]
fn collect_set_cookie_values(h: &reqwest::header::HeaderMap) -> (r: Vec<Vec<u8>>)
    ensures
        r.deep_view() == set_cookie_values(*h),
{
    h.get_all(reqwest::header::SET_COOKIE).iter().map(|v| v.as_bytes().to_vec()).collect()
}

/// Scan a response's headers for the session cookie and extract the token:
/// the whole response processing of a login attempt.
pub fn parse_response_header(response_header: &reqwest::header::HeaderMap) -> (r: LoginResult)
    ensures
        scan_result_matches(r, set_cookie_values(*response_header)),
{
    let values = collect_set_cookie_values(response_header);
    extract_session(&values)
}

/// What one outbound login request came to, as the caller's transport saw
/// it: a response's headers, or a failure on the way there.
pub enum TransportOutcome {
    /// The request went out and a response came back; its headers.
    Response(reqwest::header::HeaderMap),
    /// The request failed at the transport layer; the transport's message.
    SendFailed(String),
    /// The HTTP client could not be built; the builder's message.
    BuildFailed(String),
}

/// Turn what the transport brought back into the login's result: a send
/// failure becomes a network error carrying the transport's message, a
/// client-construction failure becomes a client error carrying the
/// builder's message, and a response is scanned for the session cookie.
pub fn complete_login(outcome: TransportOutcome) -> (r: LoginResult)
    ensures
        (outcome matches TransportOutcome::Response(h) ==> scan_result_matches(
            r,
            set_cookie_values(h),
        )),
        (outcome matches TransportOutcome::SendFailed(m) ==> r == Err::<UserSession, LoginError>(
            LoginError::NetworkError(m),
        )),
        (outcome matches TransportOutcome::BuildFailed(m) ==> r == Err::<UserSession, LoginError>(
            LoginError::ClientError(m),
        )),
{
    match outcome {
        TransportOutcome::Response(h) => parse_response_header(&h),
        TransportOutcome::SendFailed(m) => Err(LoginError::NetworkError(m)),
        TransportOutcome::BuildFailed(m) => Err(LoginError::ClientError(m)),
    }
}

/// The fixed endpoint a login request is posted to.
pub fn login_url() -> (r: &'static str)
    ensures
        r@ == "https://account.nicovideo.jp/login/redirector"@,
{
    "https://account.nicovideo.jp/login/redirector"
}

/// The fixed client-identifier string every login request carries.
pub fn user_agent() -> (r: &'static str)
    ensures
        r@ == "toof-jp/niconico"@,
{
    "toof-jp/niconico"
}

/// The form fields of a login request: exactly `password` and `mail_tel`,
/// and no others. The password is exposed here, once, and the credentials
/// are consumed.
pub fn form_fields(credentials: Credentials) -> (r: Vec<(String, String)>)
    ensures
        r@.len() == 2,
        r@[0].0@ == "password"@,
        r@[0].1@ == secret_chars(credentials.password),
        r@[1].0@ == "mail_tel"@,
        r@[1].1@ == credentials.mail_tel@,
{
    let password = credentials.password.expose_secret().clone();
    let mut fields: Vec<(String, String)> = Vec::new();
    fields.push(("password".to_owned(), password));
    fields.push(("mail_tel".to_owned(), credentials.mail_tel));
    fields
}

} // verus!
