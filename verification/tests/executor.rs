use hostsched::app::futures::AppFutures;
use hostsched::app::AppTimeoutId;
use hostsched::runtime::futures::{AsyncTimeout, AsyncTimer, FutureRuntime};
use hostsched::runtime::timer::Timer;

#[test]
fn spawn_assigns_monotonic_ids_and_requests_wakes() {
    let mut rt: FutureRuntime<String> = FutureRuntime::new();
    let a = rt.spawn(String::from("a"));
    let b = rt.spawn(String::from("b"));
    assert_eq!(a, 0);
    assert_eq!(b, 1);
    assert_eq!(rt.len(), 2);
    assert_eq!(rt.take_wake_requests(), vec![0, 1]);
    assert_eq!(rt.take_wake_requests(), Vec::<u64>::new());
}

#[test]
fn single_residency_while_checked_out() {
    let mut rt: FutureRuntime<String> = FutureRuntime::new();
    let a = rt.spawn(String::from("a"));
    let task = rt.poll_take(a);
    assert_eq!(task, Some(String::from("a")));
    assert_eq!(rt.len(), 0);
    // the identifier is checked out, so it is not in the table
    assert_eq!(rt.cancel(a), None);
    // a pending poll reinserts under the same identifier
    rt.poll_pending(a, String::from("a"));
    assert_eq!(rt.len(), 1);
    let task = rt.poll_take(a);
    assert_eq!(task, Some(String::from("a")));
    rt.poll_ready(a);
    assert_eq!(rt.len(), 0);
}

#[test]
fn stale_wake_is_a_recoverable_no_op() {
    let mut rt: FutureRuntime<String> = FutureRuntime::new();
    let a = rt.spawn(String::from("a"));
    assert_eq!(rt.poll_take(999), None);
    assert_eq!(rt.len(), 1);
    let task = rt.poll_take(a);
    assert_eq!(task, Some(String::from("a")));
    rt.poll_ready(a);
    // a duplicate wake after completion finds nothing
    assert_eq!(rt.poll_take(a), None);
}

#[test]
fn cancel_removes_without_polling() {
    let mut rt: FutureRuntime<String> = FutureRuntime::new();
    let a = rt.spawn(String::from("a"));
    let b = rt.spawn(String::from("b"));
    assert_eq!(rt.cancel(a), Some(String::from("a")));
    assert_eq!(rt.cancel(a), None);
    assert_eq!(rt.len(), 1);
    assert_eq!(rt.poll_take(b), Some(String::from("b")));
    rt.poll_ready(b);
}

#[test]
fn table_compacts_once_occupancy_drops() {
    let mut table: AppFutures<u64> = AppFutures::new();
    assert_eq!(table.capacity(), 1024);
    for i in 0..4096u64 {
        let id = table.spawn(i);
        assert_eq!(id, i);
    }
    let before = table.capacity();
    assert_eq!(before, 4096);
    for i in 0..3200u64 {
        assert_eq!(table.fetch(i), Some(i));
    }
    assert_eq!(table.len(), 896);
    table.clean();
    assert!(table.capacity() <= before / 2);
    assert_eq!(table.capacity(), 2048);
}

#[test]
fn async_timeout_registers_once_and_fires() {
    let mut timer = Timer::new();
    let mut delay = AsyncTimeout::new(100);
    // not yet due: the first poll registers a timeout under the waker's key
    assert!(!delay.poll_step(&mut timer, 3, 50));
    assert_eq!(timer.get_timeout(&AppTimeoutId::Async(3)), Some(100));
    assert_eq!(timer.len(), 1);
    // later polls do not register again
    assert!(!delay.poll_step(&mut timer, 3, 60));
    assert_eq!(timer.len(), 1);
    // due now
    assert!(delay.poll_step(&mut timer, 3, 100));
}

#[test]
fn async_timer_wait_handles_unrepresentable_instants() {
    let timer = AsyncTimer::new();
    assert!(timer.wait(10, 5).is_some());
    assert!(timer.wait(u64::MAX, 1).is_none());
    let delay = timer.timeout(40);
    let mut queue = Timer::new();
    let mut delay = delay;
    assert!(delay.poll_step(&mut queue, 9, 40));
    assert_eq!(queue.len(), 0);
}
