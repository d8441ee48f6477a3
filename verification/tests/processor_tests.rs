//! The change processor's cycle: planning, failure isolation, history
//! recording, and the end-to-end and stop scenarios.

use pluralsync::channel::CoalescingChannel;
use pluralsync::config::UpdaterSecret;
use pluralsync::config::UserConfigForUpdater;
use pluralsync::fronting::Fronter;
use pluralsync::history::HistoryStore;
use pluralsync::manager::UpdaterManager;
use pluralsync::platform::AttemptOutcome;
use pluralsync::platform::Platform;
use pluralsync::platform::UpdaterStatus;
use pluralsync::processor::ChangeProcessor;
use pluralsync::processor::CycleStep;
use pluralsync::users::UserId;

fn secret(s: &str) -> UpdaterSecret {
    UpdaterSecret { secret: s.to_string() }
}

/// A user with Discord and the website enabled and configured.
fn two_platform_config(user_id: UserId) -> UserConfigForUpdater {
    UserConfigForUpdater {
        user_id,
        status_prefix: "F: ".to_string(),
        status_no_fronts: "nobody fronting".to_string(),
        status_truncate_names_to: None,
        enable_discord: true,
        enable_discord_status_message: false,
        enable_vrchat: false,
        enable_website: true,
        enable_to_pluralkit: false,
        simply_plural_token: secret("sp-token"),
        discord_status_message_token: secret(""),
        vrchat_username: secret(""),
        vrchat_password: secret(""),
        vrchat_cookie: secret(""),
        pluralkit_token: secret(""),
        website_url_name: "alice".to_string(),
        history_limit: 10,
        history_truncate_after_days: 0,
    }
}

fn fronters(names: &[&str]) -> Vec<Fronter> {
    names.iter().map(|n| Fronter { name: n.to_string() }).collect()
}

/// Outcomes aligned with the adapter row: the given outcome for every
/// platform in `attempted`, `None` elsewhere.
fn aligned_outcomes(
    proc: &ChangeProcessor,
    attempted: &[(Platform, AttemptOutcome)],
) -> Vec<Option<AttemptOutcome>> {
    proc.updaters
        .iter()
        .map(|u| {
            attempted
                .iter()
                .find(|(p, _)| *p == u.platform)
                .map(|(_, o)| o.clone())
        })
        .collect()
}

fn status_of(statuses: &[(Platform, UpdaterStatus)], p: Platform) -> &UpdaterStatus {
    &statuses.iter().find(|(q, _)| *q == p).expect("platform missing").1
}

#[test]
fn plan_lists_exactly_the_enabled_platforms() {
    let uid = UserId { inner: 1 };
    let proc = ChangeProcessor::new(two_platform_config(uid), false);
    let plan = proc.enabled_platforms();
    assert_eq!(plan, vec![Platform::Discord, Platform::Website]);

    let with_dsm = ChangeProcessor::new(two_platform_config(uid), true);
    // The deployment offers one more adapter, but it stays disabled.
    assert_eq!(with_dsm.updaters.len(), 5);
    assert_eq!(with_dsm.enabled_platforms(), vec![Platform::Discord, Platform::Website]);
}

#[test]
fn isolation_one_platform_failing_leaves_the_other_accurate() {
    let uid = UserId { inner: 2 };
    let mut proc = ChangeProcessor::new(two_platform_config(uid), false);
    let outcomes = aligned_outcomes(
        &proc,
        &[
            (Platform::Discord, AttemptOutcome::Failure("discord down".to_string())),
            (Platform::Website, AttemptOutcome::Success),
        ],
    );
    proc.apply_update_outcomes(&outcomes);
    let statuses = proc.get_statuses();
    assert_eq!(
        status_of(&statuses, Platform::Discord),
        &UpdaterStatus::Error("discord down".to_string())
    );
    assert_eq!(status_of(&statuses, Platform::Website), &UpdaterStatus::Okay);

    // The failure clears on the next successful cycle.
    let outcomes = aligned_outcomes(
        &proc,
        &[
            (Platform::Discord, AttemptOutcome::Success),
            (Platform::Website, AttemptOutcome::Success),
        ],
    );
    proc.apply_update_outcomes(&outcomes);
    let statuses = proc.get_statuses();
    assert_eq!(status_of(&statuses, Platform::Discord), &UpdaterStatus::Okay);
}

#[test]
fn setup_failure_degrades_only_its_own_platform() {
    let uid = UserId { inner: 3 };
    let mut proc = ChangeProcessor::new(two_platform_config(uid), false);
    let outcomes = aligned_outcomes(
        &proc,
        &[
            (Platform::Discord, AttemptOutcome::Failure("bad credentials".to_string())),
            (Platform::Website, AttemptOutcome::Success),
        ],
    );
    proc.apply_setup_outcomes(&outcomes);
    let statuses = proc.get_statuses();
    assert_eq!(
        status_of(&statuses, Platform::Discord),
        &UpdaterStatus::Error("bad credentials".to_string())
    );
    assert_eq!(status_of(&statuses, Platform::Website), &UpdaterStatus::Okay);
    // Platforms never enabled report Disabled, not an error.
    assert_eq!(status_of(&statuses, Platform::VRChat), &UpdaterStatus::Disabled);
}

#[test]
fn enabled_but_unconfigured_platform_reports_not_configured() {
    let uid = UserId { inner: 4 };
    let mut config = two_platform_config(uid);
    config.website_url_name = String::new();
    let proc = ChangeProcessor::new(config, false);
    let statuses = proc.get_statuses();
    assert_eq!(status_of(&statuses, Platform::Website), &UpdaterStatus::NotConfigured);
}

#[test]
fn end_to_end_two_snapshots_reach_both_adapters_and_history() {
    let uid = UserId { inner: 5 };
    let config = two_platform_config(uid);
    let mut chan: CoalescingChannel<Vec<Fronter>> = CoalescingChannel::new();
    let mut proc = ChangeProcessor::new(config, false);
    let mut store = HistoryStore::new(uid);
    let mut mgr = UpdaterManager::new(false);
    mgr.start_updater(&uid).unwrap();

    // Setup both enabled adapters, publish the initial statuses.
    let plan = proc.enabled_platforms();
    assert_eq!(plan, vec![Platform::Discord, Platform::Website]);
    let setup = aligned_outcomes(
        &proc,
        &[
            (Platform::Discord, AttemptOutcome::Success),
            (Platform::Website, AttemptOutcome::Success),
        ],
    );
    proc.apply_setup_outcomes(&setup);
    mgr.notify_updater_statuses(&uid, proc.get_statuses()).unwrap();

    // Snapshot [A] arrives: both adapters receive it, one entry is stored.
    chan.send(fronters(&["A"]));
    let snap = match proc.poll_channel(&mut chan) {
        CycleStep::Apply(v) => v,
        _ => panic!("a pending snapshot must start an apply cycle"),
    };
    let plan = proc.enabled_platforms();
    assert_eq!(plan.len(), 2, "both enabled adapters must be attempted");
    let updates = aligned_outcomes(
        &proc,
        &[
            (Platform::Discord, AttemptOutcome::Success),
            (Platform::Website, AttemptOutcome::Success),
        ],
    );
    proc.apply_update_outcomes(&updates);
    let text = proc.record_history(&mut store, &snap, 1000);
    assert_eq!(text, "F: A");
    assert_eq!(store.entries.len(), 1);
    mgr.notify_updater_statuses(&uid, proc.get_statuses()).unwrap();

    // Snapshot [] arrives: the placeholder text differs, so a second
    // entry is stored.
    chan.send(fronters(&[]));
    let snap = match proc.poll_channel(&mut chan) {
        CycleStep::Apply(v) => v,
        _ => panic!("the coalesced snapshot must be delivered"),
    };
    proc.apply_update_outcomes(&aligned_outcomes(
        &proc,
        &[
            (Platform::Discord, AttemptOutcome::Success),
            (Platform::Website, AttemptOutcome::Success),
        ],
    ));
    let text = proc.record_history(&mut store, &snap, 2000);
    assert_eq!(text, "nobody fronting");
    assert_eq!(store.entries.len(), 2);
    mgr.notify_updater_statuses(&uid, proc.get_statuses()).unwrap();

    // The manager reflects Okay for both platforms.
    let statuses = mgr.get_statuses(&uid).unwrap();
    assert_eq!(status_of(&statuses, Platform::Discord), &UpdaterStatus::Okay);
    assert_eq!(status_of(&statuses, Platform::Website), &UpdaterStatus::Okay);
}

#[test]
fn stop_scenario_no_adapter_invocation_after_stop() {
    let uid = UserId { inner: 6 };
    let mut chan: CoalescingChannel<Vec<Fronter>> = CoalescingChannel::new();
    let mut proc = ChangeProcessor::new(two_platform_config(uid), false);
    let mut mgr = UpdaterManager::new(false);
    mgr.start_updater(&uid).unwrap();

    // Stop: the registration goes away and the producer side closes.
    mgr.stop_updater(&uid).unwrap();
    assert!(mgr.get_statuses(&uid).is_none());
    chan.close();

    // A snapshot sent on the now-orphaned channel is dropped; the
    // processor observes closure and exits without any apply cycle.
    chan.send(fronters(&["A"]));
    match proc.poll_channel(&mut chan) {
        CycleStep::Exit => {}
        CycleStep::Apply(_) => panic!("an adapter invocation must not happen after stop"),
        CycleStep::Idle => panic!("a closed channel must end the processor"),
    }
    assert!(proc.done);
}

#[test]
fn duplicate_snapshot_text_is_not_stored_twice() {
    let uid = UserId { inner: 7 };
    let config = two_platform_config(uid);
    let proc = ChangeProcessor::new(config, false);
    let mut store = HistoryStore::new(uid);
    let snap = fronters(&["A", "B"]);
    let t1 = proc.record_history(&mut store, &snap, 100);
    let t2 = proc.record_history(&mut store, &snap, 200);
    assert_eq!(t1, "F: A, B");
    assert_eq!(t1, t2);
    assert_eq!(store.entries.len(), 1);
}
