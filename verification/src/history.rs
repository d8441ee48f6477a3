//! The history store: an append-with-dedup and bounded-retention log
//! of the status texts published for one user.
//!
//! Appending compares only the single most recent entry — a
//! write-amplification guard, not a full-history dedup.  Pruning
//! deletes an entry when it falls outside the most-recent-`limit`
//! window **or** is older than a day cutoff; either condition alone
//! suffices, and `limit = 0` disables history entirely.  Persistence
//! itself is delegated to an external collaborator; this store is the
//! exact policy it must implement.

use vstd::prelude::*;
use crate::users::UserId;

verus! {

/// One stored status line: what was published for a user, and when.
#[derive(Debug)]
pub struct HistoryEntry {
    /// Store-assigned identifier, increasing with insertion order.
    pub id: u64,
    pub user_id: UserId,
    pub status_text: String,
    /// Creation time in seconds since the Unix epoch.
    pub created_at: u64,
}

impl Clone for HistoryEntry {
    fn clone(&self) -> (r: Self)
        ensures
            r == *self,
    {
        HistoryEntry {
            id: self.id,
            user_id: self.user_id,
            status_text: self.status_text.clone(),
            created_at: self.created_at,
        }
    }
}

/// Entries are ordered by creation time.
pub open spec fn times_ascending(s: Seq<HistoryEntry>) -> bool {
    forall|i: int| 0 <= i < s.len() - 1 ==> (#[trigger] s[i]).created_at <= s[i + 1].created_at
}

/// No two consecutive entries carry the same status text.
pub open spec fn no_adjacent_duplicates(s: Seq<HistoryEntry>) -> bool {
    forall|i: int| 0 <= i < s.len() - 1 ==> (#[trigger] s[i]).status_text@ != s[i + 1].status_text@
}

/// Every entry belongs to the given user.
pub open spec fn entries_for_user(s: Seq<HistoryEntry>, u: UserId) -> bool {
    forall|i: int| 0 <= i < s.len() ==> (#[trigger] s[i]).user_id == u
}

/// The entries after an append of `e`: unchanged when the most recent
/// entry already carries the same text, extended by `e` otherwise.
pub open spec fn inserted_entries(s: Seq<HistoryEntry>, e: HistoryEntry) -> Seq<HistoryEntry> {
    if s.len() > 0 && s.last().status_text@ == e.status_text@ {
        s
    } else {
        s.push(e)
    }
}

/// Whether an entry survives the age axis of a prune: a cutoff of 0
/// days disables the axis, otherwise the entry must be younger than
/// `days` days (of 86400 seconds) at time `now`.
pub open spec fn age_survives(e: HistoryEntry, days: int, now: u64) -> bool {
    days == 0 || e.created_at + days * 86400 > now
}

/// The age predicate as a function value, for use with `filter`.
pub open spec fn age_pred(days: int, now: u64) -> spec_fn(HistoryEntry) -> bool {
    |e: HistoryEntry| age_survives(e, days, now)
}

/// Start of the most-recent-`limit` window in a log of length `len`.
pub open spec fn count_window_start(len: int, limit: int) -> int {
    if limit >= len {
        0
    } else {
        len - limit
    }
}

/// The entries after a prune: those inside the most-recent-`limit`
/// window that also survive the age axis.  An entry outside the window
/// or over the age cutoff is deleted — the two axes combine with OR.
pub open spec fn pruned_entries(s: Seq<HistoryEntry>, limit: int, days: int, now: u64) -> Seq<
    HistoryEntry,
> {
    s.skip(count_window_start(s.len() as int, limit)).filter(age_pred(days, now))
}

/// The deduplicated, bounded history log for one user.
#[derive(Debug)]
pub struct HistoryStore {
    pub user_id: UserId,
    /// Identifier handed to the next inserted entry.
    pub next_id: u64,
    pub entries: Vec<HistoryEntry>,
}

impl HistoryStore {
    /// Invariant: all entries belong to this user, are ordered by
    /// creation time, and no two consecutive entries repeat a text.
    pub open spec fn wf(self) -> bool {
        &&& entries_for_user(self.entries@, self.user_id)
        &&& times_ascending(self.entries@)
        &&& no_adjacent_duplicates(self.entries@)
    }

    /// Whether an append of `text` would be skipped as a duplicate.
    pub open spec fn is_duplicate(self, text: Seq<char>) -> bool {
        self.entries@.len() > 0 && self.entries@.last().status_text@ == text
    }

    /// An empty log for one user.
    pub fn new(user_id: UserId) -> (r: Self)
        ensures
            r.wf(),
            r.user_id == user_id,
            r.next_id == 0,
            r.entries@.len() == 0,
    {
        HistoryStore { user_id, next_id: 0, entries: Vec::new() }
    }

    /// Append a status text, unless the most recent entry already
    /// carries the same text — then the write is skipped entirely.
    /// Only the single most recent entry is compared, not the full
    /// history.
    pub fn insert_history_entry(&mut self, status_text: &String, now: u64)
        requires
            old(self).wf(),
            old(self).next_id < u64::MAX,
            old(self).entries@.len() > 0 ==> now >= old(self).entries@.last().created_at,
        ensures
            final(self).wf(),
            final(self).user_id == old(self).user_id,
            final(self).entries@ == inserted_entries(
                old(self).entries@,
                (HistoryEntry {
                    id: old(self).next_id,
                    user_id: old(self).user_id,
                    status_text: *status_text,
                    created_at: now,
                }),
            ),
            old(self).is_duplicate(status_text@) ==> *final(self) == *old(self),
            !old(self).is_duplicate(status_text@) ==> final(self).next_id == old(self).next_id
                + 1,
    {
        if self.entries.len() > 0 {
            let last = &self.entries[self.entries.len() - 1];
            if last.status_text == *status_text {
                return;
            }
        }
        let entry = HistoryEntry {
            id: self.next_id,
            user_id: self.user_id,
            status_text: status_text.clone(),
            created_at: now,
        };
        self.entries.push(entry);
        self.next_id = self.next_id + 1;
    }

    /// Delete every entry that is outside the most-recent-`limit`
    /// window or past the age cutoff.  `history_limit = 0` deletes
    /// everything; `history_truncate_after_days = 0` disables the age
    /// axis.
    pub fn prune_history(
        &mut self,
        history_limit: usize,
        history_truncate_after_days: usize,
        now: u64,
    )
        requires
            old(self).wf(),
        ensures
            final(self).wf(),
            final(self).user_id == old(self).user_id,
            final(self).next_id == old(self).next_id,
            final(self).entries@ == pruned_entries(
                old(self).entries@,
                history_limit as int,
                history_truncate_after_days as int,
                now,
            ),
    {
        let ghost s = self.entries@;
        let ghost days = history_truncate_after_days as int;
        let len = self.entries.len();
        let start: usize = if history_limit >= len {
            0
        } else {
            len - history_limit
        };
        assert(start == count_window_start(s.len() as int, history_limit as int));

        // The age axis deletes a prefix of the window: creation times
        // ascend, so once one entry is young enough, all later ones are.
        let cut: usize = find_age_cut(&self.entries, start, history_truncate_after_days, now);

        let mut kept: Vec<HistoryEntry> = Vec::new();
        let mut i: usize = cut;
        while i < len
            invariant
                cut <= i <= len,
                len == s.len(),
                self.entries@ == s,
                kept@ == s.subrange(cut as int, i as int),
            decreases len - i,
        {
            kept.push(self.entries[i].clone());
            assert(kept@ =~= s.subrange(cut as int, i + 1 as int));
            i = i + 1;
        }
        self.entries = kept;

        proof {
            lemma_prune_shape(s, start as int, cut as int, days, now);
            assert(self.entries@ == s.subrange(cut as int, len as int));
            assert(self.entries@ == pruned_entries(s, history_limit as int, days, now));
            lemma_suffix_preserves_wf(s, cut as int, old(self).user_id);
        }
    }

    /// Append and then prune in one step, as one processing cycle does.
    pub fn store_history_entry(
        &mut self,
        status_text: &String,
        history_limit: usize,
        history_truncate_after_days: usize,
        now: u64,
    )
        requires
            old(self).wf(),
            old(self).next_id < u64::MAX,
            old(self).entries@.len() > 0 ==> now >= old(self).entries@.last().created_at,
        ensures
            final(self).wf(),
            final(self).user_id == old(self).user_id,
            final(self).entries@ == pruned_entries(
                inserted_entries(
                    old(self).entries@,
                    (HistoryEntry {
                        id: old(self).next_id,
                        user_id: old(self).user_id,
                        status_text: *status_text,
                        created_at: now,
                    }),
                ),
                history_limit as int,
                history_truncate_after_days as int,
                now,
            ),
    {
        self.insert_history_entry(status_text, now);
        self.prune_history(history_limit, history_truncate_after_days, now);
    }

    /// The most recent entries, newest first, capped at `limit`.
    pub fn get_history_entries(&self, limit: usize) -> (r: Vec<HistoryEntry>)
        ensures
            r@.len() == (if limit < self.entries@.len() {
                limit as int
            } else {
                self.entries@.len() as int
            }),
            forall|i: int|
                0 <= i < r@.len() ==> r@[i] == self.entries@[self.entries@.len() - 1 - i],
    {
        let len = self.entries.len();
        let take: usize = if limit < len {
            limit
        } else {
            len
        };
        let mut r: Vec<HistoryEntry> = Vec::new();
        let mut i: usize = 0;
        while i < take
            invariant
                0 <= i <= take <= len,
                len == self.entries@.len(),
                r@.len() == i,
                forall|k: int| 0 <= k < i ==> r@[k] == self.entries@[len - 1 - k],
            decreases take - i,
        {
            r.push(self.entries[len - 1 - i].clone());
            i = i + 1;
        }
        r
    }

    /// The text of the most recent entry, for deduplication.
    pub fn get_most_recent_status_text(&self) -> (r: Option<String>)
        ensures
            match r {
                Some(t) => self.entries@.len() > 0 && t@ == self.entries@.last().status_text@,
                None => self.entries@.len() == 0,
            },
    {
        if self.entries.len() > 0 {
            Some(self.entries[self.entries.len() - 1].status_text.clone())
        } else {
            None
        }
    }
}

/// A filter keeps a sequence whole when every element satisfies the
/// predicate.
pub proof fn lemma_filter_all_true(s: Seq<HistoryEntry>, pred: spec_fn(HistoryEntry) -> bool)
    requires
        forall|i: int| 0 <= i < s.len() ==> pred(#[trigger] s[i]),
    ensures
        s.filter(pred) == s,
    decreases s.len(),
{
    reveal(Seq::filter);
    if s.len() != 0 {
        lemma_filter_all_true(s.drop_last(), pred);
        assert(s.drop_last().push(s.last()) =~= s);
    }
}

/// A filter empties a sequence when no element satisfies the
/// predicate.
pub proof fn lemma_filter_all_false(s: Seq<HistoryEntry>, pred: spec_fn(HistoryEntry) -> bool)
    requires
        forall|i: int| 0 <= i < s.len() ==> !pred(#[trigger] s[i]),
    ensures
        s.filter(pred) == Seq::<HistoryEntry>::empty(),
    decreases s.len(),
{
    reveal(Seq::filter);
    if s.len() != 0 {
        lemma_filter_all_false(s.drop_last(), pred);
    }
}

/// Adjacent ordering extends to any pair of positions.
pub proof fn lemma_times_pairwise(s: Seq<HistoryEntry>, i: int, j: int)
    requires
        times_ascending(s),
        0 <= i <= j < s.len(),
    ensures
        s[i].created_at <= s[j].created_at,
    decreases j - i,
{
    if i < j {
        lemma_times_pairwise(s, i, j - 1);
    }
}

/// Any contiguous suffix keeps the store invariant.
pub proof fn lemma_suffix_preserves_wf(s: Seq<HistoryEntry>, cut: int, u: UserId)
    requires
        0 <= cut <= s.len(),
        entries_for_user(s, u),
        times_ascending(s),
        no_adjacent_duplicates(s),
    ensures
        entries_for_user(s.subrange(cut, s.len() as int), u),
        times_ascending(s.subrange(cut, s.len() as int)),
        no_adjacent_duplicates(s.subrange(cut, s.len() as int)),
{
    let t = s.subrange(cut, s.len() as int);
    assert forall|i: int| 0 <= i < t.len() implies (#[trigger] t[i]).user_id == u by {
        assert(t[i] == s[cut + i]);
    }
    assert forall|i: int| 0 <= i < t.len() - 1 implies (#[trigger] t[i]).created_at <= t[i
        + 1].created_at by {
        assert(t[i] == s[cut + i] && t[i + 1] == s[cut + i + 1]);
    }
    assert forall|i: int| 0 <= i < t.len() - 1 implies (#[trigger] t[i]).status_text@ != t[i
        + 1].status_text@ by {
        assert(t[i] == s[cut + i] && t[i + 1] == s[cut + i + 1]);
    }
}

/// When times ascend and every window entry before `cut` is overdue
/// while the entry at `cut` (if any) is not, the whole prune collapses
/// to the contiguous suffix starting at `cut`.
proof fn lemma_prune_shape(s: Seq<HistoryEntry>, start: int, cut: int, days: int, now: u64)
    requires
        0 <= start <= cut <= s.len(),
        times_ascending(s),
        forall|m: int| start <= m < cut ==> !age_pred(days, now)(#[trigger] s[m]),
        cut < s.len() ==> age_pred(days, now)(s[cut]),
    ensures
        s.skip(start).filter(age_pred(days, now)) == s.subrange(cut, s.len() as int),
{
    let pred = age_pred(days, now);
    let len = s.len() as int;
    let head = s.subrange(start, cut);
    let tail = s.subrange(cut, len);
    assert(s.skip(start) =~= head + tail);
    Seq::filter_distributes_over_add(head, tail, pred);
    assert forall|i: int| 0 <= i < head.len() implies !pred(#[trigger] head[i]) by {
        assert(head[i] == s[start + i]);
    }
    lemma_filter_all_false(head, pred);
    assert forall|i: int| 0 <= i < tail.len() implies pred(#[trigger] tail[i]) by {
        assert(tail[i] == s[cut + i]);
        lemma_times_pairwise(s, cut, cut + i);
    }
    lemma_filter_all_true(tail, pred);
    assert(s.skip(start).filter(pred) =~= tail);
}

/// First position at or after `start` whose entry survives the age
/// axis; every earlier window entry is overdue.
fn find_age_cut(entries: &Vec<HistoryEntry>, start: usize, days: usize, now: u64) -> (r: usize)
    requires
        start <= entries@.len(),
    ensures
        start <= r <= entries@.len(),
        forall|m: int| start <= m < r ==> !age_survives(#[trigger] entries@[m], days as int, now),
        r < entries@.len() ==> age_survives(entries@[r as int], days as int, now),
{
    let len = entries.len();
    let mut cut: usize = start;
    while cut < len
        invariant
            start <= cut <= len,
            len == entries@.len(),
            forall|m: int|
                start <= m < cut ==> !age_survives(#[trigger] entries@[m], days as int, now),
        decreases len - cut,
    {
        if entry_age_ok(&entries[cut], days, now) {
            return cut;
        }
        cut = cut + 1;
    }
    cut
}

/// Age check for one entry, over machine integers.
fn entry_age_ok(e: &HistoryEntry, days: usize, now: u64) -> (r: bool)
    ensures
        r == age_survives(*e, days as int, now),
{
    if days == 0 {
        true
    } else {
        (e.created_at as u128) + (days as u128) * 86400 > (now as u128)
    }
}

/// Dedup law: from a log whose latest text differs from `e1`'s,
/// appending `e1` stores it; appending `e2` with the same text right
/// after changes nothing; appending `e3` with a different text then
/// stores exactly one more entry.
pub proof fn lemma_append_dedup(
    s: Seq<HistoryEntry>,
    e1: HistoryEntry,
    e2: HistoryEntry,
    e3: HistoryEntry,
)
    requires
        s.len() == 0 || s.last().status_text@ != e1.status_text@,
        e2.status_text@ == e1.status_text@,
        e3.status_text@ != e1.status_text@,
    ensures
        inserted_entries(s, e1) == s.push(e1),
        inserted_entries(inserted_entries(s, e1), e2) == s.push(e1),
        inserted_entries(inserted_entries(s, e1), e3) == s.push(e1).push(e3),
{
}

/// Count-axis law: with the age axis disabled, a prune keeps exactly
/// the `limit` most recent entries (all of them when fewer exist).
pub proof fn lemma_prune_count_axis(s: Seq<HistoryEntry>, limit: int, now: u64)
    requires
        limit >= 0,
    ensures
        pruned_entries(s, limit, 0, now) == s.skip(count_window_start(s.len() as int, limit)),
        pruned_entries(s, limit, 0, now).len() == (if limit >= s.len() {
            s.len() as int
        } else {
            limit
        }),
        forall|i: int|
            0 <= i < pruned_entries(s, limit, 0, now).len() ==> pruned_entries(s, limit, 0, now)[i]
                == s[count_window_start(s.len() as int, limit) + i],
{
    let w = s.skip(count_window_start(s.len() as int, limit));
    lemma_filter_all_true(w, age_pred(0, now));
}

/// Disable-all law: with `limit = 0` a prune leaves nothing, whatever
/// the ages involved.
pub proof fn lemma_prune_disable_all(s: Seq<HistoryEntry>, days: int, now: u64)
    ensures
        pruned_entries(s, 0, days, now).len() == 0,
{
    let w = s.skip(count_window_start(s.len() as int, 0));
    assert(w =~= Seq::<HistoryEntry>::empty());
    lemma_filter_all_false(w, age_pred(days, now));
}

/// Age-axis law: with a window large enough for every entry, a prune
/// keeps exactly the entries under the age cutoff — an overdue entry
/// is removed even when fewer than `limit` entries exist.
pub proof fn lemma_prune_age_axis(s: Seq<HistoryEntry>, limit: int, days: int, now: u64)
    requires
        limit >= s.len(),
    ensures
        pruned_entries(s, limit, days, now) == s.filter(age_pred(days, now)),
        forall|i: int|
            0 <= i < pruned_entries(s, limit, days, now).len() ==> age_survives(
                #[trigger] pruned_entries(s, limit, days, now)[i],
                days,
                now,
            ),
{
    assert(s.skip(0) =~= s);
    let out = s.filter(age_pred(days, now));
    assert forall|i: int| 0 <= i < out.len() implies age_survives(#[trigger] out[i], days, now) by {
        Seq::lemma_filter_pred(s, age_pred(days, now), i);
    }
}

} // verus!
