use hostsched::app::AppTimeoutId;
use hostsched::runtime::timer::{Timeout, TimeoutResult, Timer};

#[test]
fn set_missing_then_get() {
    let mut t = Timer::new();
    let r = t.set_timeout(AppTimeoutId::User(1), 100);
    assert_eq!(r, TimeoutResult::Missing);
    assert_eq!(t.get_timeout(&AppTimeoutId::User(1)), Some(100));
    assert_eq!(t.get_timeout(&AppTimeoutId::User(2)), None);
    assert_eq!(t.earliest_instant(), Some(100));
    assert_eq!(t.len(), 1);
}

#[test]
fn set_replaces_existing_entry() {
    let mut t = Timer::new();
    t.set_timeout(AppTimeoutId::User(1), 100);
    let r = t.set_timeout(AppTimeoutId::User(1), 70);
    assert_eq!(r, TimeoutResult::Canceled(100));
    // one-per-owner: exactly one entry remains for the owner
    assert_eq!(t.len(), 1);
    assert_eq!(t.get_timeout(&AppTimeoutId::User(1)), Some(70));
}

#[test]
fn queue_stays_sorted_under_mixed_operations() {
    let mut t = Timer::new();
    t.set_timeout(AppTimeoutId::User(1), 500);
    t.set_timeout(AppTimeoutId::User(2), 100);
    t.set_timeout(AppTimeoutId::User(3), 300);
    t.set_timeout(AppTimeoutId::FrameRequest(1), 200);
    t.set_timeout(AppTimeoutId::Async(1), 400);
    t.set_timeout(AppTimeoutId::User(2), 250);
    t.cancel_timeout(&AppTimeoutId::User(3), None);
    // popping everything yields ascending wake times
    let mut last = 0u64;
    let mut popped = 0;
    while let Some(entry) = t.pop_timeout(u64::MAX) {
        assert!(entry.instant >= last);
        last = entry.instant;
        popped += 1;
    }
    assert_eq!(popped, 4);
}

#[test]
fn pop_returns_only_due_entries() {
    let mut t = Timer::new();
    t.set_timeout(AppTimeoutId::User(1), 100);
    t.set_timeout(AppTimeoutId::User(2), 200);
    assert_eq!(t.pop_timeout(99), None);
    assert_eq!(
        t.pop_timeout(100),
        Some(Timeout { id: AppTimeoutId::User(1), instant: 100 })
    );
    assert_eq!(t.pop_timeout(150), None);
    assert_eq!(
        t.pop_timeout(250),
        Some(Timeout { id: AppTimeoutId::User(2), instant: 200 })
    );
    assert_eq!(t.pop_timeout(u64::MAX), None);
}

#[test]
fn only_if_earlier_is_a_no_op_on_earlier_entry() {
    let mut t = Timer::new();
    t.set_timeout(AppTimeoutId::User(1), 100);
    let r = t.set_timeout_earlier(AppTimeoutId::User(1), 150);
    assert_eq!(r, TimeoutResult::FoundEarlier(100));
    assert!(r.found_earlier());
    assert_eq!(t.len(), 1);
    assert_eq!(t.get_timeout(&AppTimeoutId::User(1)), Some(100));
}

#[test]
fn only_if_earlier_moves_a_later_entry() {
    let mut t = Timer::new();
    t.set_timeout(AppTimeoutId::User(1), 100);
    let r = t.set_timeout_earlier(AppTimeoutId::User(1), 60);
    assert_eq!(r, TimeoutResult::Canceled(100));
    assert_eq!(t.get_timeout(&AppTimeoutId::User(1)), Some(60));
}

#[test]
fn cancel_too_late_keeps_entry() {
    let mut t = Timer::new();
    t.set_timeout(AppTimeoutId::User(1), 100);
    let r = t.cancel_timeout(&AppTimeoutId::User(1), Some(150));
    assert_eq!(r, TimeoutResult::FoundEarlier(100));
    assert_eq!(t.len(), 1);
    assert_eq!(t.get_timeout(&AppTimeoutId::User(1)), Some(100));
}

#[test]
fn cancel_with_threshold_removes_later_entry() {
    let mut t = Timer::new();
    t.set_timeout(AppTimeoutId::User(1), 200);
    let r = t.cancel_timeout(&AppTimeoutId::User(1), Some(150));
    assert_eq!(r, TimeoutResult::Canceled(200));
    assert_eq!(t.len(), 0);
}

#[test]
fn cancel_missing_reports_none() {
    let mut t = Timer::new();
    let r = t.cancel_timeout(&AppTimeoutId::User(1), None);
    assert_eq!(r, TimeoutResult::Missing);
    assert!(r.was_none());
    assert!(!r.was_canceld());
    assert!(!r.found_earlier());
}

#[test]
fn front_change_signaling() {
    let mut t = Timer::new();
    assert_eq!(t.take_set_instant(), None);
    t.set_timeout(AppTimeoutId::User(1), 100);
    assert_eq!(t.take_set_instant(), Some(Some(100)));
    // one-shot: consumed
    assert_eq!(t.take_set_instant(), None);
    // insertion behind the front leaves no update
    t.set_timeout(AppTimeoutId::User(2), 200);
    assert_eq!(t.take_set_instant(), None);
    // a new front leaves an update
    t.set_timeout(AppTimeoutId::User(3), 50);
    assert_eq!(t.take_set_instant(), Some(Some(50)));
    // removing behind the front leaves no update
    t.cancel_timeout(&AppTimeoutId::User(2), None);
    assert_eq!(t.take_set_instant(), None);
    // removing the front names the next entry
    t.cancel_timeout(&AppTimeoutId::User(3), None);
    assert_eq!(t.take_set_instant(), Some(Some(100)));
    // emptying the queue asks for an indefinite wait
    t.cancel_timeout(&AppTimeoutId::User(1), None);
    assert_eq!(t.take_set_instant(), Some(None));
}

#[test]
fn pop_signals_new_front() {
    let mut t = Timer::new();
    t.set_timeout(AppTimeoutId::User(1), 10);
    t.set_timeout(AppTimeoutId::User(2), 20);
    t.take_set_instant();
    assert!(t.pop_timeout(15).is_some());
    assert_eq!(t.take_set_instant(), Some(Some(20)));
    assert!(t.pop_timeout(25).is_some());
    assert_eq!(t.take_set_instant(), Some(None));
}

#[test]
fn wait_overflow_cancels_existing_entry() {
    let mut t = Timer::new();
    t.set_timeout(AppTimeoutId::User(1), 10);
    let r = t.set_timeout_wait(AppTimeoutId::User(1), u64::MAX, 5);
    assert_eq!(r, TimeoutResult::Canceled(10));
    assert_eq!(t.get_timeout(&AppTimeoutId::User(1)), None);
}

#[test]
fn wait_installs_at_now_plus_duration() {
    let mut t = Timer::new();
    let r = t.set_timeout_wait(AppTimeoutId::User(1), 10, 5);
    assert_eq!(r, TimeoutResult::Missing);
    assert_eq!(t.get_timeout(&AppTimeoutId::User(1)), Some(15));
}

#[test]
fn wait_earlier_overflow_reports_existing_entry() {
    let mut t = Timer::new();
    t.set_timeout(AppTimeoutId::User(1), 10);
    let r = t.set_timeout_wait_earlier(AppTimeoutId::User(1), u64::MAX, 5);
    assert_eq!(r, TimeoutResult::FoundEarlier(10));
    assert_eq!(t.get_timeout(&AppTimeoutId::User(1)), Some(10));
    let r = t.set_timeout_wait_earlier(AppTimeoutId::User(2), u64::MAX, 5);
    assert_eq!(r, TimeoutResult::Missing);
}

#[test]
fn compaction_after_mass_insert_and_pop() {
    let mut t = Timer::new();
    assert_eq!(t.capacity(), 1024);
    for i in 0..4096u64 {
        t.set_timeout(AppTimeoutId::User(i), i);
    }
    assert_eq!(t.len(), 4096);
    let before = t.capacity();
    assert_eq!(before, 4096);
    for i in 0..3200u64 {
        let popped = t.pop_timeout(u64::MAX);
        assert_eq!(popped, Some(Timeout { id: AppTimeoutId::User(i), instant: i }));
    }
    assert_eq!(t.len(), 896);
    assert!(t.capacity() <= before / 2);
    assert_eq!(t.capacity(), 2048);
}
