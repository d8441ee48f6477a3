//! User-facing value types: identifiers, credentials and secrets.

use vstd::prelude::*;

verus! {

/// A user's e-mail address.
#[derive(Debug)]
pub struct Email {
    pub inner: String,
}

impl Clone for Email {
    fn clone(&self) -> (r: Self)
        ensures
            r == *self,
    {
        Email { inner: self.inner.clone() }
    }
}

/// An opaque secret value (a password, a token, ...).
#[derive(Clone, Debug)]
pub struct Secret {
    pub inner: String,
}

/// A password as the user typed it, before any hashing.
#[derive(Clone, Debug)]
pub struct UserProvidedPassword {
    pub inner: Secret,
}

/// A one-time token that authorises a password reset.
#[derive(Clone, Debug)]
pub struct PasswordResetToken {
    pub inner: Secret,
}

/// A one-time token that proves control over an e-mail address.
#[derive(Clone, Debug)]
pub struct EmailVerificationToken {
    pub inner: Secret,
}

/// A serialised authentication token handed to a logged-in user.
#[derive(Debug)]
pub struct JwtString {
    pub inner: String,
}

/// The pair of values a user submits to register or log in.
#[derive(Clone, Debug)]
pub struct UserLoginCredentials {
    pub email: Email,
    pub password: UserProvidedPassword,
}

impl UserLoginCredentials {
    /// True exactly when the e-mail or the password is empty, which no
    /// account can ever have; such credentials are rejected up front.
    pub fn is_empty_and_thus_invalid(&self) -> (r: bool)
        ensures
            r == (self.email.inner@.len() == 0 || self.password.inner.inner@.len() == 0),
    {
        self.email.inner.as_str().is_empty() || self.password.inner.inner.as_str().is_empty()
    }
}

/// A user's unique identifier.
///
/// Stored externally as a 128-bit UUID; the library works on the raw
/// 128-bit value.
#[derive(Clone, Copy, Debug, PartialEq, Eq, Structural, Hash)]
pub struct UserId {
    pub inner: u128,
}


/// Everything stored about one account.
#[derive(Debug)]
pub struct UserInfo {
    pub id: UserId,
    pub email: Email,
    pub password_hash: crate::auth::SecretHashString,
    /// Creation time in seconds since the Unix epoch.
    pub created_at: u64,
    /// Set while an e-mail change awaits confirmation.
    pub new_email: Option<Email>,
    pub email_verification_token_hash: Option<String>,
    /// When the pending e-mail verification token lapses, in seconds
    /// since the Unix epoch.
    pub email_verification_token_expires_at: Option<u64>,
}

/// A registration awaiting e-mail verification; promoted to a real
/// account once the token is confirmed in time.
#[derive(Debug)]
pub struct TemporaryUser {
    pub id: UserId,
    pub email: Email,
    pub password_hash: crate::auth::SecretHashString,
    pub email_verification_token_hash: crate::auth::SecretHashString,
    /// When the verification token lapses, in seconds since the Unix
    /// epoch.
    pub email_verification_token_expires_at: u64,
    pub created_at: u64,
}

} // verus!
