//! Per-user and application-wide configuration values.

use vstd::prelude::*;
use crate::users::UserId;

verus! {

/// One decrypted per-platform credential as the change processor sees
/// it.  An empty secret means the user never configured the platform.
#[derive(Clone, Debug)]
pub struct UpdaterSecret {
    pub secret: String,
}

/// Everything a user's change processor needs for one processing
/// cycle: formatting options, per-platform enable flags, decrypted
/// per-platform secrets and history retention limits.
///
/// The processor owns its copy for the duration of a cycle; it is
/// refreshed by re-fetching, never mutated concurrently.
#[derive(Clone, Debug)]
pub struct UserConfigForUpdater {
    pub user_id: UserId,
    /// Text placed before the fronter names in a published status.
    pub status_prefix: String,
    /// Status text published when the fronter list is empty.
    pub status_no_fronts: String,
    /// If set, names are truncated to this many characters when the
    /// formatted status exceeds a platform's maximum length.
    pub status_truncate_names_to: Option<usize>,
    pub enable_discord: bool,
    pub enable_discord_status_message: bool,
    pub enable_vrchat: bool,
    pub enable_website: bool,
    pub enable_to_pluralkit: bool,
    pub simply_plural_token: UpdaterSecret,
    pub discord_status_message_token: UpdaterSecret,
    pub vrchat_username: UpdaterSecret,
    pub vrchat_password: UpdaterSecret,
    pub vrchat_cookie: UpdaterSecret,
    pub pluralkit_token: UpdaterSecret,
    /// Name under which the user's public website page is served; empty
    /// when the user has not chosen one.
    pub website_url_name: String,
    /// Maximum number of history entries to keep; 0 disables history.
    pub history_limit: usize,
    /// Age in days past which history entries are pruned; 0 disables
    /// age-based pruning.
    pub history_truncate_after_days: usize,
}

/// Connection settings for the outgoing mail relay.
#[derive(Clone, Debug)]
pub struct SmtpConfig {
    pub host: String,
    pub port: u16,
    pub username: String,
    pub password: String,
    pub from_email: String,
}

/// Application-wide settings read once at startup.
#[derive(Clone, Debug)]
pub struct ApplicationConfig {
    pub database_url: String,
    pub request_timeout: u64,
    pub pluralsync_variant: String,
    pub pluralsync_variant_description: Option<String>,
    pub pluralsync_variant_hide_in_ui: bool,
    pub jwt_application_secret: String,
    pub application_user_secrets: String,
    pub discord_status_message_updater_available: bool,
    pub smtp_host: String,
    pub smtp_port: u16,
    pub smtp_username: String,
    pub smtp_password: String,
    pub smtp_from_email: String,
}

} // verus!
