//! Dedup and pruning behaviour of the history store.

use pluralsync::history::HistoryStore;
use pluralsync::users::UserId;

fn store() -> HistoryStore {
    HistoryStore::new(UserId { inner: 42 })
}

const DAY: u64 = 86400;

#[test]
fn dedup_same_text_twice_stores_once() {
    let mut s = store();
    s.insert_history_entry(&"alice".to_string(), 100);
    s.insert_history_entry(&"alice".to_string(), 200);
    assert_eq!(s.entries.len(), 1);
    assert_eq!(s.entries[0].status_text, "alice");
    assert_eq!(s.entries[0].created_at, 100);

    s.insert_history_entry(&"bob".to_string(), 300);
    assert_eq!(s.entries.len(), 2);
    assert_eq!(s.entries[1].status_text, "bob");
}

#[test]
fn dedup_compares_only_most_recent() {
    let mut s = store();
    s.insert_history_entry(&"alice".to_string(), 100);
    s.insert_history_entry(&"bob".to_string(), 200);
    // "alice" exists further back, but only the latest entry counts.
    s.insert_history_entry(&"alice".to_string(), 300);
    assert_eq!(s.entries.len(), 3);
}

#[test]
fn prune_count_axis_keeps_three_most_recent_of_five() {
    let mut s = store();
    for (i, name) in ["a", "b", "c", "d", "e"].iter().enumerate() {
        s.insert_history_entry(&name.to_string(), 100 + i as u64);
    }
    assert_eq!(s.entries.len(), 5);
    s.prune_history(3, 0, 1000);
    assert_eq!(s.entries.len(), 3);
    let texts: Vec<&str> = s.entries.iter().map(|e| e.status_text.as_str()).collect();
    assert_eq!(texts, vec!["c", "d", "e"]);
}

#[test]
fn prune_limit_zero_removes_everything() {
    let mut s = store();
    s.insert_history_entry(&"a".to_string(), 100);
    s.insert_history_entry(&"b".to_string(), 200);
    s.prune_history(0, 0, 200);
    assert_eq!(s.entries.len(), 0);

    // Even a freshly written entry does not survive a disable-all prune.
    s.insert_history_entry(&"c".to_string(), 300);
    s.prune_history(0, 7, 300);
    assert_eq!(s.entries.len(), 0);
}

#[test]
fn prune_age_axis_removes_overdue_entry_under_large_limit() {
    let mut s = store();
    let now: u64 = 100 * DAY;
    // One entry 8 days old, one entry 1 day old.
    s.insert_history_entry(&"old".to_string(), now - 8 * DAY);
    s.insert_history_entry(&"new".to_string(), now - DAY);
    s.prune_history(1000, 7, now);
    assert_eq!(s.entries.len(), 1);
    assert_eq!(s.entries[0].status_text, "new");
}

#[test]
fn prune_days_zero_disables_age_axis() {
    let mut s = store();
    let now: u64 = 100 * DAY;
    s.insert_history_entry(&"ancient".to_string(), 0);
    s.prune_history(10, 0, now);
    assert_eq!(s.entries.len(), 1);
}

#[test]
fn prune_axes_combine_with_or() {
    let mut s = store();
    let now: u64 = 100 * DAY;
    // Outside the window (oldest of three with limit 2) OR overdue.
    s.insert_history_entry(&"a".to_string(), now - 10 * DAY);
    s.insert_history_entry(&"b".to_string(), now - 9 * DAY);
    s.insert_history_entry(&"c".to_string(), now - DAY);
    s.prune_history(2, 7, now);
    // "a" falls outside the window of two; "b" is inside but overdue.
    assert_eq!(s.entries.len(), 1);
    assert_eq!(s.entries[0].status_text, "c");
}

#[test]
fn store_history_entry_appends_then_prunes() {
    let mut s = store();
    for (i, name) in ["a", "b", "c"].iter().enumerate() {
        s.store_history_entry(&name.to_string(), 2, 0, 100 + i as u64);
    }
    assert_eq!(s.entries.len(), 2);
    let texts: Vec<&str> = s.entries.iter().map(|e| e.status_text.as_str()).collect();
    assert_eq!(texts, vec!["b", "c"]);
}

#[test]
fn get_history_entries_newest_first_capped() {
    let mut s = store();
    for (i, name) in ["a", "b", "c"].iter().enumerate() {
        s.insert_history_entry(&name.to_string(), 100 + i as u64);
    }
    let recent = s.get_history_entries(2);
    assert_eq!(recent.len(), 2);
    assert_eq!(recent[0].status_text, "c");
    assert_eq!(recent[1].status_text, "b");

    let all = s.get_history_entries(10);
    assert_eq!(all.len(), 3);
}

#[test]
fn most_recent_status_text() {
    let mut s = store();
    assert!(s.get_most_recent_status_text().is_none());
    s.insert_history_entry(&"a".to_string(), 100);
    s.insert_history_entry(&"b".to_string(), 200);
    assert_eq!(s.get_most_recent_status_text(), Some("b".to_string()));
}

#[test]
fn entry_ids_increase_with_insertion() {
    let mut s = store();
    s.insert_history_entry(&"a".to_string(), 100);
    s.insert_history_entry(&"a".to_string(), 150);
    s.insert_history_entry(&"b".to_string(), 200);
    assert_eq!(s.entries[0].id, 0);
    assert_eq!(s.entries[1].id, 1);
    assert_eq!(s.entries[1].user_id, UserId { inner: 42 });
}
