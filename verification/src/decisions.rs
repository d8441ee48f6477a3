//! The decisions behind the account endpoints: registration, e-mail
//! verification, e-mail change and account deletion.
//!
//! The endpoints themselves do I/O — they read requests, query
//! storage and send mail — and live in the runtime.  What they decide
//! on the values they gathered is here, stated exactly.

use vstd::prelude::*;
use vstd::string::StringExecFns;
use crate::auth::SecretHashString;
use crate::users::Email;
use crate::users::TemporaryUser;
use crate::users::UserId;
use crate::users::UserInfo;
use crate::users::UserLoginCredentials;

verus! {

/// How a registration request is handled.
#[derive(Debug, PartialEq, Eq, Structural)]
pub enum RegisterDecision {
    /// The e-mail or the password is empty.
    RejectEmptyCredentials,
    /// An account with this e-mail already exists.
    RejectEmailTaken,
    /// Create the temporary user and send the verification e-mail.
    Proceed,
}

/// Decide a registration request.  Empty credentials are rejected
/// first; then a taken e-mail; otherwise registration proceeds.
pub fn register_decision(credentials: &UserLoginCredentials, email_already_used: bool) -> (r:
    RegisterDecision)
    ensures
        r == (if credentials.email.inner@.len() == 0 || credentials.password.inner.inner@.len()
            == 0 {
            RegisterDecision::RejectEmptyCredentials
        } else if email_already_used {
            RegisterDecision::RejectEmailTaken
        } else {
            RegisterDecision::Proceed
        }),
{
    if credentials.is_empty_and_thus_invalid() {
        RegisterDecision::RejectEmptyCredentials
    } else if email_already_used {
        RegisterDecision::RejectEmailTaken
    } else {
        RegisterDecision::Proceed
    }
}

/// How an e-mail change request is handled.
#[derive(Debug, PartialEq, Eq, Structural)]
pub enum EmailChangeDecision {
    /// The new e-mail is empty.
    RejectEmptyEmail,
    /// An account with the new e-mail already exists.
    RejectEmailTaken,
    /// Store the pending change and send the confirmation e-mail.
    Proceed,
}

/// Decide an e-mail change request.
pub fn email_change_decision(new_email: &Email, email_already_used: bool) -> (r:
    EmailChangeDecision)
    ensures
        r == (if new_email.inner@.len() == 0 {
            EmailChangeDecision::RejectEmptyEmail
        } else if email_already_used {
            EmailChangeDecision::RejectEmailTaken
        } else {
            EmailChangeDecision::Proceed
        }),
{
    if new_email.inner.as_str().is_empty() {
        EmailChangeDecision::RejectEmptyEmail
    } else if email_already_used {
        EmailChangeDecision::RejectEmailTaken
    } else {
        EmailChangeDecision::Proceed
    }
}

/// What an e-mail verification token turned out to authorise.
#[derive(Debug)]
pub enum EmailVerifyOutcome {
    /// The token confirms a pending e-mail change: switch the account
    /// to the new address.
    ChangeEmail(UserId, Email),
    /// The token confirms an initial registration: create the account
    /// with the stored credentials.
    ActivateAccount(Email, SecretHashString),
    /// The token matches nothing that is still valid.
    Reject,
}

/// What verification decides when no valid pending e-mail change
/// matched: a matching registration still within its deadline is
/// activated, anything else is rejected.
pub open spec fn spec_registration_outcome(temp: Option<TemporaryUser>, now: u64) -> (
    EmailVerifyOutcome) {
    match temp {
        Some(t) => if t.email_verification_token_expires_at > now {
            EmailVerifyOutcome::ActivateAccount(t.email, t.password_hash)
        } else {
            EmailVerifyOutcome::Reject
        },
        None => EmailVerifyOutcome::Reject,
    }
}

/// What verification decides: a pending e-mail change on a matching
/// account wins when its token is still within its deadline;
/// otherwise a matching registration is considered.
pub open spec fn spec_email_verify_outcome(
    existing: Option<UserInfo>,
    temp: Option<TemporaryUser>,
    now: u64,
) -> EmailVerifyOutcome {
    match existing {
        Some(u) => match (u.new_email, u.email_verification_token_expires_at) {
            (Some(e), Some(x)) => if x > now {
                EmailVerifyOutcome::ChangeEmail(u.id, e)
            } else {
                spec_registration_outcome(temp, now)
            },
            _ => spec_registration_outcome(temp, now),
        },
        None => spec_registration_outcome(temp, now),
    }
}

/// Decide what an e-mail verification token authorises, given the
/// account whose pending change matched the token (if any), the
/// temporary user whose registration matched it (if any), and the
/// current time in seconds since the Unix epoch.
pub fn email_verify_decision(
    existing_user: Option<UserInfo>,
    temporary_user: Option<TemporaryUser>,
    now: u64,
) -> (r: EmailVerifyOutcome)
    ensures
        r == spec_email_verify_outcome(existing_user, temporary_user, now),
{
    match existing_user {
        Some(u) => {
            match (u.new_email, u.email_verification_token_expires_at) {
                (Some(e), Some(x)) => {
                    if x > now {
                        EmailVerifyOutcome::ChangeEmail(u.id, e)
                    } else {
                        registration_outcome(temporary_user, now)
                    }
                },
                _ => registration_outcome(temporary_user, now),
            }
        },
        None => registration_outcome(temporary_user, now),
    }
}

/// Decide a verification token's effect when no valid pending e-mail
/// change matched it.
fn registration_outcome(temporary_user: Option<TemporaryUser>, now: u64) -> (r: EmailVerifyOutcome)
    ensures
        r == spec_registration_outcome(temporary_user, now),
{
    match temporary_user {
        Some(t) => {
            if t.email_verification_token_expires_at > now {
                EmailVerifyOutcome::ActivateAccount(t.email, t.password_hash)
            } else {
                EmailVerifyOutcome::Reject
            }
        },
        None => EmailVerifyOutcome::Reject,
    }
}

/// Whether the typed confirmation authorises an account deletion: it
/// must read exactly `delete`.
pub fn delete_confirmation_valid(confirmation: &String) -> (r: bool)
    ensures
        r == (confirmation@ == "delete"@),
{
    let expected: String = String::from_str("delete");
    confirmation.eq(&expected)
}

/// Body of the reply to an e-mail verification request.
#[derive(Debug)]
pub struct EmailVerificationResponse {
    pub message: String,
}

/// Body of an e-mail change request.
#[derive(Debug)]
pub struct ChangeEmailRequest {
    pub new_email: Email,
}

/// Body of a forgotten-password request.
#[derive(Debug)]
pub struct ForgotPasswordRequest {
    pub email: Email,
}

/// Body of a password reset attempt: the token from the reset e-mail
/// and the password to switch to.
#[derive(Debug)]
pub struct ResetPasswordAttempt {
    pub token: crate::users::PasswordResetToken,
    pub new_password: crate::users::UserProvidedPassword,
}

/// Body of an account deletion request: the password again, and the
/// typed confirmation word.
#[derive(Debug)]
pub struct DeleteAccountRequest {
    pub password: crate::users::UserProvidedPassword,
    pub confirmation: String,
}

/// The subset of an account that its owner may see.
#[derive(Debug)]
pub struct UserInfoUI {
    pub id: UserId,
    pub email: Email,
    pub created_at: u64,
}

impl From<UserInfo> for UserInfoUI {
    /// The owner-visible view of an account: the identifier, address
    /// and creation time; hashes and pending-change fields stay
    /// internal.
    fn from(user: UserInfo) -> (r: Self) {
        UserInfoUI { id: user.id, email: user.email, created_at: user.created_at }
    }
}

impl vstd::std_specs::convert::FromSpecImpl<UserInfo> for UserInfoUI {
    open spec fn obeys_from_spec() -> bool {
        true
    }

    open spec fn from_spec(user: UserInfo) -> Self {
        UserInfoUI { id: user.id, email: user.email, created_at: user.created_at }
    }
}

} // verus!
