//! The closed set of sync targets and the per-platform adapter state.
//!
//! Every platform obeys the same four-operation contract: an
//! enablement check that is a pure function of the configuration, a
//! one-time session setup, an apply-update per snapshot, and a cheap
//! status query.  The network side of setup and apply is integration
//! detail performed by the runtime; the adapter state here records
//! each attempt's outcome, and a failure of one platform never touches
//! another.

use vstd::prelude::*;
use crate::config::UserConfigForUpdater;

verus! {

/// The external sync targets a deployment can drive.
#[derive(Clone, Copy, Debug, PartialEq, Eq, Structural, Hash)]
pub enum Platform {
    Discord,
    DiscordStatusMessage,
    VRChat,
    Website,
    PluralKit,
}

/// Last-known outcome for one (user, platform) pair.  Exactly one such
/// value exists per pair at any time; it is overwritten, never
/// accumulated.
#[derive(Debug, PartialEq, Eq)]
pub enum UpdaterStatus {
    /// The user has not enabled the platform.
    Disabled,
    /// Enabled, but the credentials the platform needs are missing.
    NotConfigured,
    /// No failure is known from the most recent attempt.
    Okay,
    /// The most recent setup or update attempt failed.
    Error(String),
}

/// How one setup or update attempt against the external platform
/// ended.  Produced by the runtime that performs the network call.
#[derive(Debug)]
pub enum AttemptOutcome {
    Success,
    Failure(String),
}

/// Session progress of one adapter, fed by recorded attempt outcomes.
#[derive(Debug)]
pub enum SessionState {
    /// No setup attempt has been recorded yet.
    NotStarted,
    /// The most recent recorded attempt succeeded.
    Ready,
    /// The setup attempt failed; the adapter is degraded but the
    /// processor keeps running.
    SetupFailed(String),
    /// The most recent update attempt failed; a later successful cycle
    /// clears this.
    UpdateFailed(String),
}

/// One platform adapter: per-platform session state exclusively owned
/// by one user's change processor.
#[derive(Debug)]
pub struct Updater {
    pub platform: Platform,
    pub session: SessionState,
}



impl Clone for UpdaterStatus {
    fn clone(&self) -> (r: Self)
        ensures
            r == *self,
    {
        match self {
            UpdaterStatus::Disabled => UpdaterStatus::Disabled,
            UpdaterStatus::NotConfigured => UpdaterStatus::NotConfigured,
            UpdaterStatus::Okay => UpdaterStatus::Okay,
            UpdaterStatus::Error(m) => UpdaterStatus::Error(m.clone()),
        }
    }
}

impl Clone for AttemptOutcome {
    fn clone(&self) -> (r: Self)
        ensures
            r == *self,
    {
        match self {
            AttemptOutcome::Success => AttemptOutcome::Success,
            AttemptOutcome::Failure(m) => AttemptOutcome::Failure(m.clone()),
        }
    }
}

impl Clone for SessionState {
    fn clone(&self) -> (r: Self)
        ensures
            r == *self,
    {
        match self {
            SessionState::NotStarted => SessionState::NotStarted,
            SessionState::Ready => SessionState::Ready,
            SessionState::SetupFailed(m) => SessionState::SetupFailed(m.clone()),
            SessionState::UpdateFailed(m) => SessionState::UpdateFailed(m.clone()),
        }
    }
}

impl Clone for Updater {
    fn clone(&self) -> (r: Self)
        ensures
            r == *self,
    {
        Updater { platform: self.platform, session: self.session.clone() }
    }
}

/// Whether the user has switched the platform on.
pub open spec fn platform_enabled(p: Platform, c: UserConfigForUpdater) -> bool {
    match p {
        Platform::Discord => c.enable_discord,
        Platform::DiscordStatusMessage => c.enable_discord_status_message,
        Platform::VRChat => c.enable_vrchat,
        Platform::Website => c.enable_website,
        Platform::PluralKit => c.enable_to_pluralkit,
    }
}

/// Whether the credentials the platform needs are present.
pub open spec fn platform_configured(p: Platform, c: UserConfigForUpdater) -> bool {
    match p {
        Platform::Discord => c.simply_plural_token.secret@.len() > 0,
        Platform::DiscordStatusMessage => c.discord_status_message_token.secret@.len() > 0,
        Platform::VRChat => c.vrchat_username.secret@.len() > 0
            && c.vrchat_password.secret@.len() > 0,
        Platform::Website => c.website_url_name@.len() > 0,
        Platform::PluralKit => c.pluralkit_token.secret@.len() > 0,
    }
}

/// The session state after a setup attempt with the given outcome.
pub open spec fn session_after_setup(outcome: AttemptOutcome) -> SessionState {
    match outcome {
        AttemptOutcome::Success => SessionState::Ready,
        AttemptOutcome::Failure(m) => SessionState::SetupFailed(m),
    }
}

/// The session state after an update attempt with the given outcome.
pub open spec fn session_after_update(outcome: AttemptOutcome) -> SessionState {
    match outcome {
        AttemptOutcome::Success => SessionState::Ready,
        AttemptOutcome::Failure(m) => SessionState::UpdateFailed(m),
    }
}

/// The status summary derived from configuration and session state.
pub open spec fn spec_status(u: Updater, c: UserConfigForUpdater) -> UpdaterStatus {
    if !platform_enabled(u.platform, c) {
        UpdaterStatus::Disabled
    } else if !platform_configured(u.platform, c) {
        UpdaterStatus::NotConfigured
    } else {
        match u.session {
            SessionState::NotStarted => UpdaterStatus::Okay,
            SessionState::Ready => UpdaterStatus::Okay,
            SessionState::SetupFailed(m) => UpdaterStatus::Error(m),
            SessionState::UpdateFailed(m) => UpdaterStatus::Error(m),
        }
    }
}

impl Updater {
    /// A fresh adapter for one platform, before any setup attempt.
    pub fn new(platform: Platform) -> (r: Self)
        ensures
            r.platform == platform,
            r.session is NotStarted,
    {
        Updater { platform, session: SessionState::NotStarted }
    }

    /// Enablement check: a pure function of the configuration, with no
    /// side effects.
    pub fn enabled(&self, config: &UserConfigForUpdater) -> (r: bool)
        ensures
            r == platform_enabled(self.platform, *config),
    {
        match self.platform {
            Platform::Discord => config.enable_discord,
            Platform::DiscordStatusMessage => config.enable_discord_status_message,
            Platform::VRChat => config.enable_vrchat,
            Platform::Website => config.enable_website,
            Platform::PluralKit => config.enable_to_pluralkit,
        }
    }

    /// Whether the credentials the platform needs are present.
    pub fn configured(&self, config: &UserConfigForUpdater) -> (r: bool)
        ensures
            r == platform_configured(self.platform, *config),
    {
        match self.platform {
            Platform::Discord => !config.simply_plural_token.secret.as_str().is_empty(),
            Platform::DiscordStatusMessage => !config
                .discord_status_message_token
                .secret
                .as_str()
                .is_empty(),
            Platform::VRChat => !config.vrchat_username.secret.as_str().is_empty()
                && !config.vrchat_password.secret.as_str().is_empty(),
            Platform::Website => !config.website_url_name.as_str().is_empty(),
            Platform::PluralKit => !config.pluralkit_token.secret.as_str().is_empty(),
        }
    }

    /// Record how this adapter's session setup attempt ended.
    pub fn record_setup(&mut self, outcome: AttemptOutcome)
        ensures
            final(self).platform == old(self).platform,
            final(self).session == session_after_setup(outcome),
    {
        self.session = match outcome {
            AttemptOutcome::Success => SessionState::Ready,
            AttemptOutcome::Failure(m) => SessionState::SetupFailed(m),
        };
    }

    /// Record how this adapter's update attempt for one snapshot ended.
    /// The status reflects the most recent attempt only.
    pub fn record_update(&mut self, outcome: AttemptOutcome)
        ensures
            final(self).platform == old(self).platform,
            final(self).session == session_after_update(outcome),
    {
        self.session = match outcome {
            AttemptOutcome::Success => SessionState::Ready,
            AttemptOutcome::Failure(m) => SessionState::UpdateFailed(m),
        };
    }

    /// Cheap, synchronous summary of the adapter's last known outcome;
    /// performs no network work.
    pub fn status(&self, config: &UserConfigForUpdater) -> (r: UpdaterStatus)
        ensures
            r == spec_status(*self, *config),
    {
        if !self.enabled(config) {
            UpdaterStatus::Disabled
        } else if !self.configured(config) {
            UpdaterStatus::NotConfigured
        } else {
            match &self.session {
                SessionState::NotStarted => UpdaterStatus::Okay,
                SessionState::Ready => UpdaterStatus::Okay,
                SessionState::SetupFailed(m) => UpdaterStatus::Error(m.clone()),
                SessionState::UpdateFailed(m) => UpdaterStatus::Error(m.clone()),
            }
        }
    }
}

/// The platforms this deployment constructs an adapter for: every
/// platform, with the Discord status-message updater only where the
/// deployment makes it available.
pub fn pluralsync_server_updaters(discord_status_message_available: bool) -> (r: Vec<Platform>)
    ensures
        discord_status_message_available ==> r@ == seq![
            Platform::Discord,
            Platform::DiscordStatusMessage,
            Platform::VRChat,
            Platform::Website,
            Platform::PluralKit,
        ],
        !discord_status_message_available ==> r@ == seq![
            Platform::Discord,
            Platform::VRChat,
            Platform::Website,
            Platform::PluralKit,
        ],
        forall|i: int, j: int| 0 <= i < j < r@.len() ==> r@[i] != r@[j],
{
    let mut r: Vec<Platform> = Vec::new();
    r.push(Platform::Discord);
    if discord_status_message_available {
        r.push(Platform::DiscordStatusMessage);
    }
    r.push(Platform::VRChat);
    r.push(Platform::Website);
    r.push(Platform::PluralKit);
    proof {
        if discord_status_message_available {
            assert(r@ =~= seq![
                Platform::Discord,
                Platform::DiscordStatusMessage,
                Platform::VRChat,
                Platform::Website,
                Platform::PluralKit,
            ]);
        } else {
            assert(r@ =~= seq![
                Platform::Discord,
                Platform::VRChat,
                Platform::Website,
                Platform::PluralKit,
            ]);
        }
    }
    r
}

} // verus!
