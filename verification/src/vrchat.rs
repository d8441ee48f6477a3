//! Credential shapes for the VRChat adapter's multi-factor session
//! bootstrap.
//!
//! The network side of the login flow is integration detail outside
//! the core; these types carry the credentials and the cached cookie
//! through its stages.

use vstd::prelude::*;
use crate::config::UserConfigForUpdater;

verus! {

/// A VRChat account identifier.
#[derive(Clone, Debug)]
pub struct VRChatUserId {
    pub inner: String,
}

/// Username and password for a VRChat session.
#[derive(Clone, Debug)]
pub struct VRChatCredentials {
    pub username: String,
    pub password: String,
}

/// Credentials together with the cached session cookie.
#[derive(Clone, Debug)]
pub struct VRChatCredentialsWithCookie {
    pub creds: VRChatCredentials,
    pub cookie: String,
}

impl VRChatCredentialsWithCookie {
    /// The credentials as stored in the user's updater configuration.
    pub fn from_config(config: &UserConfigForUpdater) -> (r: Self)
        ensures
            r.creds.username@ == config.vrchat_username.secret@,
            r.creds.password@ == config.vrchat_password.secret@,
            r.cookie@ == config.vrchat_cookie.secret@,
    {
        Self::from_strings(
            config.vrchat_username.secret.clone(),
            config.vrchat_password.secret.clone(),
            config.vrchat_cookie.secret.clone(),
        )
    }

    /// Pair existing credentials with a cookie.
    pub fn from(creds: VRChatCredentials, cookie: String) -> (r: Self)
        ensures
            r.creds == creds,
            r.cookie == cookie,
    {
        Self::from_strings(creds.username, creds.password, cookie)
    }

    fn from_strings(username: String, password: String, cookie: String) -> (r: Self)
        ensures
            r.creds.username == username,
            r.creds.password == password,
            r.cookie == cookie,
    {
        VRChatCredentialsWithCookie { creds: VRChatCredentials { username, password }, cookie }
    }
}

/// The server's answer when a login needs a second factor.
#[derive(Clone, Debug)]
pub struct TwoFactorCodeRequiredResponse {
    pub method: TwoFactorAuthMethod,
    pub tmp_cookie: String,
}

/// Which kind of second factor the server asked for.
#[derive(Clone, Copy, Debug, PartialEq, Eq, Structural)]
pub enum TwoFactorAuthMethod {
    TwoFactorAuthMethodEmail,
    TwoFactorAuthMethodApp,
}

impl TwoFactorAuthMethod {
    /// The method a login response asks for: the e-mail variant
    /// exactly when the response lists e-mail one-time codes.
    pub fn from(requires_email_otp: bool) -> (r: Self)
        ensures
            r == (if requires_email_otp {
                TwoFactorAuthMethod::TwoFactorAuthMethodEmail
            } else {
                TwoFactorAuthMethod::TwoFactorAuthMethodApp
            }),
    {
        if requires_email_otp {
            Self::TwoFactorAuthMethodEmail
        } else {
            Self::TwoFactorAuthMethodApp
        }
    }
}

/// A second-factor code as the user typed it.
#[derive(Clone, Debug)]
pub struct TwoFactorAuthCode {
    pub inner: String,
}

/// Credentials, the chosen second-factor method and code, and the
/// temporary cookie of the pending login.
#[derive(Clone, Debug)]
pub struct VRChatCredentialsWithTwoFactorAuth {
    pub creds: VRChatCredentials,
    pub method: TwoFactorAuthMethod,
    pub code: TwoFactorAuthCode,
    pub tmp_cookie: String,
}

} // verus!
