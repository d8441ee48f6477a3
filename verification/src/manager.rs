//! The updater manager: the process-wide registry of running change
//! processors and their latest per-platform statuses.
//!
//! One registration exists per user.  Statuses are replaced as whole
//! maps, last write wins; `get_statuses` hands out a snapshot that may
//! be briefly stale relative to an in-flight cycle.  Stopping removes
//! the registration; the runtime then closes the producer side of the
//! user's channel, which the processor observes at its next receive.

use vstd::prelude::*;
use crate::processor::UserUpdatersStatuses;
use crate::users::UserId;

verus! {

/// Why a manager call could not be carried out.
#[derive(Debug, Clone, Copy, PartialEq, Eq, Structural)]
pub enum ManagerError {
    /// A processor is already registered for the user; it must be
    /// stopped before a restart.
    AlreadyRunning,
    /// No processor is registered for the user.  Non-fatal: during
    /// account deletion a best-effort stop is acceptable.
    NotRunning,
}

/// One user's registration: the cached status map.
#[derive(Debug)]
pub struct ManagerEntry {
    pub user_id: UserId,
    pub statuses: UserUpdatersStatuses,
}

/// Whether some entry is registered for the user.
pub open spec fn registry_contains(s: Seq<ManagerEntry>, u: UserId) -> bool {
    exists|i: int| 0 <= i < s.len() && s[i].user_id == u
}

/// The process-wide registry, keyed by user.
#[derive(Debug)]
pub struct UpdaterManager {
    /// Whether this deployment offers the Discord status-message
    /// updater at all.
    pub discord_status_message_available: bool,
    pub entries: Vec<ManagerEntry>,
}

impl UpdaterManager {
    /// Invariant: at most one registration per user.
    pub open spec fn wf(self) -> bool {
        forall|i: int, j: int|
            0 <= i < self.entries@.len() && 0 <= j < self.entries@.len() && i != j
                ==> (#[trigger] self.entries@[i]).user_id != (#[trigger] self.entries@[j]).user_id
    }

    pub open spec fn contains(self, u: UserId) -> bool {
        registry_contains(self.entries@, u)
    }

    /// An empty registry.
    pub fn new(discord_status_message_available: bool) -> (r: Self)
        ensures
            r.wf(),
            r.discord_status_message_available == discord_status_message_available,
            r.entries@.len() == 0,
    {
        UpdaterManager { discord_status_message_available, entries: Vec::new() }
    }

    /// Index of the user's registration, if any.
    fn find_index(&self, user_id: &UserId) -> (r: Option<usize>)
        ensures
            match r {
                Some(i) => i < self.entries@.len() && self.entries@[i as int].user_id == *user_id,
                None => !self.contains(*user_id),
            },
    {
        let mut i: usize = 0;
        while i < self.entries.len()
            invariant
                0 <= i <= self.entries@.len(),
                forall|k: int| 0 <= k < i ==> (#[trigger] self.entries@[k]).user_id != *user_id,
            decreases self.entries@.len() - i,
        {
            if self.entries[i].user_id == *user_id {
                return Some(i);
            }
            i = i + 1;
        }
        None
    }

    /// Register a processor for the user.  Fails with `AlreadyRunning`
    /// when one is registered: callers must stop before a restart.
    pub fn start_updater(&mut self, user_id: &UserId) -> (r: Result<(), ManagerError>)
        requires
            old(self).wf(),
        ensures
            final(self).wf(),
            final(self).discord_status_message_available == old(self).discord_status_message_available,
            match r {
                Ok(()) => !old(self).contains(*user_id) && final(self).entries@.len() == old(self).entries@.len() + 1 && final(self).entries@.drop_last() == old(self).entries@
                    && final(self).entries@.last().user_id == *user_id && final(self).entries@.last().statuses@.len() == 0,
                Err(e) => e == ManagerError::AlreadyRunning && old(self).contains(*user_id)
                    && *final(self) == *old(self),
            },
    {
        match self.find_index(user_id) {
            Some(_) => Err(ManagerError::AlreadyRunning),
            None => {
                let entry = ManagerEntry { user_id: *user_id, statuses: Vec::new() };
                self.entries.push(entry);
                proof {
                    assert forall|i: int, j: int|
                        0 <= i < self.entries@.len() && 0 <= j < self.entries@.len() && i != j
                            implies (#[trigger] self.entries@[i]).user_id != (
                        #[trigger] self.entries@[j]).user_id by {
                        if i == self.entries@.len() - 1 {
                            assert(old(self).entries@[j].user_id != *user_id);
                        } else if j == self.entries@.len() - 1 {
                            assert(old(self).entries@[i].user_id != *user_id);
                        }
                    }
                }
                Ok(())
            },
        }
    }

    /// Remove the user's registration so that the processor can be
    /// torn down.  Fails with `NotRunning` when none is registered.
    pub fn stop_updater(&mut self, user_id: &UserId) -> (r: Result<(), ManagerError>)
        requires
            old(self).wf(),
        ensures
            final(self).wf(),
            final(self).discord_status_message_available == old(self).discord_status_message_available,
            !final(self).contains(*user_id),
            match r {
                Ok(()) => old(self).contains(*user_id) && exists|i: int|
                    0 <= i < old(self).entries@.len() && old(self).entries@[i].user_id == *user_id
                        && final(self).entries@ == old(self).entries@.remove(i),
                Err(e) => e == ManagerError::NotRunning && !old(self).contains(*user_id) && *final(self) == *old(self),
            },
    {
        match self.find_index(user_id) {
            Some(i) => {
                self.entries.remove(i);
                proof {
                    let s0 = old(self).entries@;
                    let s1 = self.entries@;
                    assert forall|k: int| 0 <= k < s1.len() implies (#[trigger] s1[k]).user_id
                        != *user_id by {
                        if k < i {
                            assert(s1[k] == s0[k]);
                        } else {
                            assert(s1[k] == s0[k + 1]);
                        }
                    }
                    assert forall|a: int, b: int|
                        0 <= a < s1.len() && 0 <= b < s1.len() && a != b implies (
                    #[trigger] s1[a]).user_id != (#[trigger] s1[b]).user_id by {
                        let a0: int = if a < i {
                            a
                        } else {
                            a + 1
                        };
                        let b0: int = if b < i {
                            b
                        } else {
                            b + 1
                        };
                        assert(s1[a] == s0[a0] && s1[b] == s0[b0]);
                    }
                }
                Ok(())
            },
            None => Err(ManagerError::NotRunning),
        }
    }

    /// Replace the user's cached status map wholesale; the latest
    /// write wins.  Fails with `NotRunning` when the user has no
    /// registration.
    pub fn notify_updater_statuses(
        &mut self,
        user_id: &UserId,
        statuses: UserUpdatersStatuses,
    ) -> (r: Result<(), ManagerError>)
        requires
            old(self).wf(),
        ensures
            final(self).wf(),
            final(self).discord_status_message_available == old(self).discord_status_message_available,
            match r {
                Ok(()) => exists|i: int|
                    0 <= i < old(self).entries@.len() && old(self).entries@[i].user_id == *user_id
                        && final(self).entries@ == old(self).entries@.update(
                        i,
                        (ManagerEntry { user_id: *user_id, statuses: statuses }),
                    ),
                Err(e) => e == ManagerError::NotRunning && !old(self).contains(*user_id) && *final(self) == *old(self),
            },
    {
        match self.find_index(user_id) {
            Some(i) => {
                let entry = ManagerEntry { user_id: *user_id, statuses };
                self.entries.remove(i);
                self.entries.insert(i, entry);
                proof {
                    let s0 = old(self).entries@;
                    let s1 = self.entries@;
                    assert(s1 =~= s0.update(i as int, (ManagerEntry {
                        user_id: *user_id,
                        statuses: statuses,
                    })));
                    assert forall|a: int, b: int|
                        0 <= a < s1.len() && 0 <= b < s1.len() && a != b implies (
                    #[trigger] s1[a]).user_id != (#[trigger] s1[b]).user_id by {
                        assert(s1[a].user_id == s0[a].user_id);
                        assert(s1[b].user_id == s0[b].user_id);
                    }
                }
                Ok(())
            },
            None => Err(ManagerError::NotRunning),
        }
    }

    /// A read-only snapshot of the user's cached per-platform status
    /// map; `None` when the user has no registration.  May be briefly
    /// stale relative to an in-flight processing cycle.
    pub fn get_statuses(&self, user_id: &UserId) -> (r: Option<UserUpdatersStatuses>)
        ensures
            match r {
                Some(s) => exists|i: int|
                    0 <= i < self.entries@.len() && (#[trigger] self.entries@[i]).user_id
                        == *user_id && s@ == self.entries@[i].statuses@,
                None => !self.contains(*user_id),
            },
    {
        match self.find_index(user_id) {
            Some(i) => {
                let src = &self.entries[i].statuses;
                let mut out: UserUpdatersStatuses = Vec::new();
                let mut k: usize = 0;
                while k < src.len()
                    invariant
                        0 <= k <= src@.len(),
                        out@.len() == k,
                        forall|m: int| 0 <= m < k ==> out@[m] == src@[m],
                    decreases src@.len() - k,
                {
                    let pair = &src[k];
                    out.push((pair.0, pair.1.clone()));
                    k = k + 1;
                }
                proof {
                    assert(out@ =~= src@);
                }
                Some(out)
            },
            None => None,
        }
    }
}

} // verus!
