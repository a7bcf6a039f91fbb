//! Credential and session-token types, and the secret-string container they
//! are built on.

use vstd::prelude::*;

verus! {

/// A string that must not be disclosed by accident. It holds secrecy's
/// `SecretString`, whose `Debug` form is redacted and whose contents are
/// reached only through an explicit `expose_secret` call. The container is
/// opaque to the verifier; contracts speak of it through [`secret_chars`].
#[verifier::external_body]
pub struct SecretText {
    inner: secrecy::SecretString,
}

/// The characters of the string a [`SecretText`] holds.
pub uninterp spec fn secret_chars(s: SecretText) -> Seq<char>;

impl SecretText {
    /// Relies on secrecy's `Secret::new`: the container holds exactly the
    /// string it was given, and `expose_secret` hands that string back.
    #[verifier::external_body]
    pub fn new(s: String) -> (r: SecretText)
        ensures
            secret_chars(r) == s@,
    {
        SecretText { inner: secrecy::Secret::new(s) }
    }

    /// Relies on secrecy's `expose_secret`: it returns a reference to the
    /// string the container holds.
    #[verifier::external_body]
    pub fn expose_secret(&self) -> (r: &String)
        ensures
            r@ == secret_chars(*self),
    {
        secrecy::ExposeSecret::expose_secret(&self.inner)
    }
}

/// What a caller hands to a login attempt: an account identifier and the
/// account password. The password is consumed exactly once, when the form
/// body of the request is serialized.
pub struct Credentials {
    /// Email address or telephone number associated with the account.
    pub mail_tel: String,
    /// Account password, kept in a secret container.
    pub password: SecretText,
}

/// A successful login: the session token taken from the response cookie.
pub struct UserSession {
    /// The session token, kept in a secret container.
    pub user_session: SecretText,
}

} // verus!
