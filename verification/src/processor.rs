//! The per-user change processor: the state machine that drains the
//! coalescing channel, fans each snapshot out to the enabled platform
//! adapters, and records the published status text in the history
//! store.
//!
//! The network side of a setup or update attempt is performed by the
//! runtime; the processor plans which platforms to attempt, records
//! the outcome of each attempt, and derives the per-platform statuses.
//! Each adapter's recorded state depends only on its own outcome, so a
//! failure of one platform never blocks or alters another — failure
//! isolation.

use vstd::prelude::*;
use crate::channel::CoalescingChannel;
use crate::channel::RecvPoll;
use crate::config::UserConfigForUpdater;
use crate::fronting::Fronter;
use crate::fronting::FrontingFormat;
use crate::fronting::format_fronting_status;
use crate::fronting::spec_formatted_status;
use crate::history::HistoryEntry;
use crate::history::HistoryStore;
use crate::history::inserted_entries;
use crate::history::pruned_entries;
use crate::platform::AttemptOutcome;
use crate::platform::Platform;
use crate::platform::Updater;
use crate::platform::UpdaterStatus;
use crate::platform::platform_enabled;
use crate::platform::pluralsync_server_updaters;
use crate::platform::session_after_setup;
use crate::platform::session_after_update;
use crate::platform::spec_status;

verus! {

/// The per-platform statuses of one user, as cached by the manager.
pub type UserUpdatersStatuses = Vec<(Platform, UpdaterStatus)>;

/// What one poll of the channel tells the processor to do next.
#[derive(Debug)]
pub enum CycleStep {
    /// A snapshot arrived: run one apply/record cycle with it.
    Apply(Vec<Fronter>),
    /// Nothing pending; poll again later.
    Idle,
    /// The channel is closed and drained: the processor has exited,
    /// permanently.
    Exit,
}

/// One user's change processor.
#[derive(Debug)]
pub struct ChangeProcessor {
    pub config: UserConfigForUpdater,
    pub updaters: Vec<Updater>,
    /// Set once the channel has closed; the only terminal transition.
    pub done: bool,
}

/// The platforms of a row of adapters, in order.
pub open spec fn updater_platforms(us: Seq<Updater>) -> Seq<Platform> {
    us.map_values(|u: Updater| u.platform)
}

/// Each platform has at most one adapter in the row — and so exactly
/// one status value per (user, platform) pair at any time.
pub open spec fn platforms_distinct(us: Seq<Updater>) -> bool {
    forall|i: int, j: int|
        0 <= i < j < us.len() ==> (#[trigger] us[i]).platform != (#[trigger] us[j]).platform
}

/// The platforms whose attempt the runtime must perform: exactly the
/// enabled ones, in adapter order.
pub open spec fn enabled_plan(us: Seq<Updater>, c: UserConfigForUpdater) -> Seq<Platform> {
    updater_platforms(us).filter(|p: Platform| platform_enabled(p, c))
}

/// One adapter after a setup attempt: untouched when no attempt was
/// made, else carrying its own attempt's result.
pub open spec fn applied_setup(u: Updater, oo: Option<AttemptOutcome>) -> Updater {
    match oo {
        Option::None => u,
        Option::Some(o) => Updater { platform: u.platform, session: session_after_setup(o) },
    }
}

/// One adapter after an update attempt: untouched when no attempt was
/// made, else carrying its own attempt's result.
pub open spec fn applied_update(u: Updater, oo: Option<AttemptOutcome>) -> Updater {
    match oo {
        Option::None => u,
        Option::Some(o) => Updater { platform: u.platform, session: session_after_update(o) },
    }
}

/// A whole row of adapters after their setup attempts, pointwise.
pub open spec fn applied_setups(us: Seq<Updater>, os: Seq<Option<AttemptOutcome>>) -> Seq<
    Updater,
> {
    Seq::new(us.len(), |i: int| applied_setup(us[i], os[i]))
}

/// A whole row of adapters after their update attempts, pointwise.
pub open spec fn applied_updates(us: Seq<Updater>, os: Seq<Option<AttemptOutcome>>) -> Seq<
    Updater,
> {
    Seq::new(us.len(), |i: int| applied_update(us[i], os[i]))
}

/// The formatting rules the history record uses: the user's prefix and
/// placeholder, no platform length bound.
pub open spec fn history_format(c: UserConfigForUpdater) -> FrontingFormat {
    FrontingFormat {
        max_length: Option::None,
        prefix: c.status_prefix,
        status_if_no_fronters: c.status_no_fronts,
        truncate_names_to_length_if_status_too_long: c.status_truncate_names_to,
    }
}

/// The canonical status text recorded for a snapshot.
pub open spec fn history_text(c: UserConfigForUpdater, fronters: Seq<Fronter>) -> Seq<char> {
    spec_formatted_status(history_format(c), fronters)
}

impl ChangeProcessor {
    /// A processor for one user: one fresh adapter per platform this
    /// deployment supports.
    pub fn new(config: UserConfigForUpdater, discord_status_message_available: bool) -> (r: Self)
        ensures
            r.config == config,
            !r.done,
            updater_platforms(r.updaters@) == (if discord_status_message_available {
                seq![
                    Platform::Discord,
                    Platform::DiscordStatusMessage,
                    Platform::VRChat,
                    Platform::Website,
                    Platform::PluralKit,
                ]
            } else {
                seq![Platform::Discord, Platform::VRChat, Platform::Website, Platform::PluralKit]
            }),
            forall|i: int|
                0 <= i < r.updaters@.len() ==> (#[trigger] r.updaters@[i]).session is NotStarted,
            platforms_distinct(r.updaters@),
    {
        let platforms = pluralsync_server_updaters(discord_status_message_available);
        let mut updaters: Vec<Updater> = Vec::new();
        let mut i: usize = 0;
        while i < platforms.len()
            invariant
                0 <= i <= platforms@.len(),
                updaters@.len() == i,
                forall|k: int|
                    0 <= k < i ==> (#[trigger] updaters@[k]).platform == platforms@[k]
                        && updaters@[k].session is NotStarted,
            decreases platforms@.len() - i,
        {
            updaters.push(Updater::new(platforms[i]));
            i = i + 1;
        }
        proof {
            assert(updater_platforms(updaters@) =~= platforms@);
            assert forall|a: int, b: int| 0 <= a < b < updaters@.len() implies (
            #[trigger] updaters@[a]).platform != (#[trigger] updaters@[b]).platform by {
                assert(updaters@[a].platform == platforms@[a]);
                assert(updaters@[b].platform == platforms@[b]);
            }
        }
        ChangeProcessor { config, updaters, done: false }
    }

    /// The platforms the runtime must attempt in this phase: exactly
    /// the enabled ones, in adapter order.  The plan is computed
    /// before any attempt runs, so no attempt's failure can remove a
    /// later platform from it.
    pub fn enabled_platforms(&self) -> (r: Vec<Platform>)
        ensures
            r@ == enabled_plan(self.updaters@, self.config),
    {
        let ghost pred = |p: Platform| platform_enabled(p, self.config);
        let mut r: Vec<Platform> = Vec::new();
        let mut i: usize = 0;
        while i < self.updaters.len()
            invariant
                0 <= i <= self.updaters@.len(),
                r@ == updater_platforms(self.updaters@).take(i as int).filter(pred),
                pred == (|p: Platform| platform_enabled(p, self.config)),
            decreases self.updaters@.len() - i,
        {
            let ghost plats = updater_platforms(self.updaters@);
            if self.updaters[i].enabled(&self.config) {
                r.push(self.updaters[i].platform);
            }
            proof {
                assert(plats.take(i + 1 as int) =~= plats.take(i as int).push(plats[i as int]));
                Seq::lemma_filter_push(plats.take(i as int), plats[i as int], pred);
            }
            i = i + 1;
        }
        proof {
            assert(updater_platforms(self.updaters@).take(self.updaters@.len() as int)
                =~= updater_platforms(self.updaters@));
        }
        r
    }

    /// Record how each attempted setup ended.  `outcomes` is aligned
    /// with the adapters; `None` marks a platform that was not
    /// attempted (it was disabled).  Each adapter's new state depends
    /// only on its own entry.
    pub fn apply_setup_outcomes(&mut self, outcomes: &Vec<Option<AttemptOutcome>>)
        requires
            outcomes@.len() == old(self).updaters@.len(),
        ensures
            final(self).config == old(self).config,
            final(self).done == old(self).done,
            final(self).updaters@ == applied_setups(old(self).updaters@, outcomes@),
            updater_platforms(final(self).updaters@) == updater_platforms(old(self).updaters@),
    {
        let mut next: Vec<Updater> = Vec::new();
        let mut i: usize = 0;
        while i < self.updaters.len()
            invariant
                0 <= i <= self.updaters@.len(),
                outcomes@.len() == self.updaters@.len(),
                next@ == applied_setups(self.updaters@, outcomes@).take(i as int),
            decreases self.updaters@.len() - i,
        {
            let mut u = self.updaters[i].clone();
            match &outcomes[i] {
                Option::Some(o) => {
                    u.record_setup(o.clone());
                },
                Option::None => {},
            }
            next.push(u);
            proof {
                let all = applied_setups(self.updaters@, outcomes@);
                assert(all.take(i + 1 as int) =~= all.take(i as int).push(all[i as int]));
            }
            i = i + 1;
        }
        proof {
            let all = applied_setups(self.updaters@, outcomes@);
            assert(all.take(self.updaters@.len() as int) =~= all);
            assert(updater_platforms(all) =~= updater_platforms(self.updaters@));
        }
        self.updaters = next;
    }

    /// Record how each attempted update for one snapshot ended.
    /// `outcomes` is aligned with the adapters; `None` marks a
    /// platform that was not attempted.  Each adapter's new state
    /// depends only on its own entry — one platform's failure never
    /// prevents another's outcome from being recorded accurately.
    pub fn apply_update_outcomes(&mut self, outcomes: &Vec<Option<AttemptOutcome>>)
        requires
            outcomes@.len() == old(self).updaters@.len(),
        ensures
            final(self).config == old(self).config,
            final(self).done == old(self).done,
            final(self).updaters@ == applied_updates(old(self).updaters@, outcomes@),
            updater_platforms(final(self).updaters@) == updater_platforms(old(self).updaters@),
    {
        let mut next: Vec<Updater> = Vec::new();
        let mut i: usize = 0;
        while i < self.updaters.len()
            invariant
                0 <= i <= self.updaters@.len(),
                outcomes@.len() == self.updaters@.len(),
                next@ == applied_updates(self.updaters@, outcomes@).take(i as int),
            decreases self.updaters@.len() - i,
        {
            let mut u = self.updaters[i].clone();
            match &outcomes[i] {
                Option::Some(o) => {
                    u.record_update(o.clone());
                },
                Option::None => {},
            }
            next.push(u);
            proof {
                let all = applied_updates(self.updaters@, outcomes@);
                assert(all.take(i + 1 as int) =~= all.take(i as int).push(all[i as int]));
            }
            i = i + 1;
        }
        proof {
            let all = applied_updates(self.updaters@, outcomes@);
            assert(all.take(self.updaters@.len() as int) =~= all);
            assert(updater_platforms(all) =~= updater_platforms(self.updaters@));
        }
        self.updaters = next;
    }

    /// The per-platform status summary of every adapter.
    pub fn get_statuses(&self) -> (r: UserUpdatersStatuses)
        ensures
            r@.len() == self.updaters@.len(),
            forall|i: int|
                0 <= i < r@.len() ==> #[trigger] r@[i] == (
                self.updaters@[i].platform,
                spec_status(self.updaters@[i], self.config),
                ),
    {
        let mut r: UserUpdatersStatuses = Vec::new();
        let mut i: usize = 0;
        while i < self.updaters.len()
            invariant
                0 <= i <= self.updaters@.len(),
                r@.len() == i,
                forall|k: int|
                    0 <= k < i ==> #[trigger] r@[k] == (
                    self.updaters@[k].platform,
                    spec_status(self.updaters@[k], self.config),
                    ),
            decreases self.updaters@.len() - i,
        {
            let u = &self.updaters[i];
            r.push((u.platform, u.status(&self.config)));
            i = i + 1;
        }
        r
    }

    /// One poll of the channel.  A pending snapshot starts an apply
    /// cycle; a closed, drained channel is the one terminal
    /// transition, after which the processor is done for good.
    pub fn poll_channel(&mut self, chan: &mut CoalescingChannel<Vec<Fronter>>) -> (r: CycleStep)
        requires
            !old(self).done,
        ensures
            final(self).config == old(self).config,
            final(self).updaters == old(self).updaters,
            final(chan).open == old(chan).open,
            final(chan).slot is None,
            match r {
                CycleStep::Apply(v) => old(chan).slot == Some(v) && !final(self).done,
                CycleStep::Idle => old(chan).slot is None && old(chan).open && !final(self).done,
                CycleStep::Exit => old(chan).slot is None && !old(chan).open && final(self).done,
            },
    {
        match chan.try_recv() {
            RecvPoll::Received(v) => CycleStep::Apply(v),
            RecvPoll::Pending => CycleStep::Idle,
            RecvPoll::Closed => {
                self.done = true;
                CycleStep::Exit
            },
        }
    }

    /// Format the canonical status text for a snapshot and append it
    /// to the user's history, pruning by the user's retention limits.
    /// Returns the text that was recorded.  Skipped duplicates and the
    /// prune policy are exactly those of the history store.
    pub fn record_history(
        &self,
        store: &mut HistoryStore,
        fronters: &Vec<Fronter>,
        now: u64,
    ) -> (t: String)
        requires
            old(store).wf(),
            old(store).next_id < u64::MAX,
            old(store).entries@.len() > 0 ==> now >= old(store).entries@.last().created_at,
        ensures
            t@ == history_text(self.config, fronters@),
            final(store).wf(),
            final(store).user_id == old(store).user_id,
            final(store).entries@ == pruned_entries(
                inserted_entries(
                    old(store).entries@,
                    (HistoryEntry {
                        id: old(store).next_id,
                        user_id: old(store).user_id,
                        status_text: t,
                        created_at: now,
                    }),
                ),
                self.config.history_limit as int,
                self.config.history_truncate_after_days as int,
                now,
            ),
    {
        let fronting_format = FrontingFormat {
            max_length: None,
            prefix: self.config.status_prefix.clone(),
            status_if_no_fronters: self.config.status_no_fronts.clone(),
            truncate_names_to_length_if_status_too_long: self.config.status_truncate_names_to,
        };
        let status_text = format_fronting_status(&fronting_format, fronters);
        store.store_history_entry(
            &status_text,
            self.config.history_limit,
            self.config.history_truncate_after_days,
            now,
        );
        status_text
    }
}

/// Isolation law: what an adapter records for a cycle depends only on
/// its own attempt's outcome.  If two runs of the same cycle differ in
/// other platforms' outcomes — platform A failing in one and not the
/// other — an adapter whose own outcome is the same ends in the same
/// state, and its status is recorded accurately either way.
pub proof fn lemma_update_isolation(
    us: Seq<Updater>,
    o1: Seq<Option<AttemptOutcome>>,
    o2: Seq<Option<AttemptOutcome>>,
    i: int,
)
    requires
        o1.len() == us.len(),
        o2.len() == us.len(),
        0 <= i < us.len(),
        o1[i] == o2[i],
    ensures
        applied_updates(us, o1)[i] == applied_updates(us, o2)[i],
{
}

} // verus!
