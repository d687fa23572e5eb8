//! Executor for suspended tasks.
//!
//! The executor owns a task table and implements spawn, poll-on-wake and
//! cancel. Spawning never polls inline: it records a wake request that the
//! host glue turns into a routed wake notification, so all polling happens
//! through the same event path. Polling is split in two verified steps —
//! check the task out, then report the poll's outcome — because driving the
//! suspended computation itself is the host glue's job.

use vstd::prelude::*;
use crate::app::futures::{AppFutures, has_key, task_of_key, idx_of_key, shrunk_cap_table};
use crate::app::AppTimeoutId;
use crate::runtime::timer::{Timer, TimeoutResult, set_transition};

verus! {

/// Executor: a task table plus the bookkeeping for poll-on-wake.
pub struct FutureRuntime<T> {
    futures: AppFutures<T>,
    checked_out: Option<u64>,
    wake_queue: Vec<u64>,
}

impl<T> FutureRuntime<T> {
    /// The stored (pending, not checked out) tasks.
    pub closed spec fn table(self) -> Seq<(u64, T)> {
        self.futures.entries()
    }

    /// The task table itself.
    pub closed spec fn futures_spec(self) -> AppFutures<T> {
        self.futures
    }

    /// The identifier currently checked out for polling, if any.
    pub closed spec fn checked_out_spec(self) -> Option<u64> {
        self.checked_out
    }

    /// Wake requests not yet taken by the host glue.
    pub closed spec fn wakes(self) -> Seq<u64> {
        self.wake_queue@
    }

    /// Well-formedness. In particular, an identifier is never both in the
    /// table and checked out.
    pub open spec fn ok(self) -> bool {
        &&& self.futures_spec().table_ok()
        &&& self.checked_out_spec() matches Some(id) ==> !has_key(self.table(), id) && id
            < self.futures_spec().next_id_spec()
    }

    pub fn new() -> (r: FutureRuntime<T>)
        ensures
            r.ok(),
            r.table() == Seq::<(u64, T)>::empty(),
            r.futures_spec().next_id_spec() == 0,
            r.checked_out_spec() is None,
            r.wakes() == Seq::<u64>::empty(),
    {
        FutureRuntime { futures: AppFutures::new(), checked_out: Option::None, wake_queue: Vec::new() }
    }

    /// Number of pending tasks.
    pub fn len(&self) -> (n: usize)
        ensures
            n == self.table().len(),
    {
        self.futures.len()
    }

    /// The identifier the next spawn will assign.
    pub fn next_task_id(&self) -> (id: u64)
        ensures
            id == self.futures_spec().next_id_spec(),
    {
        self.futures.next_id()
    }

    /// The identifier currently checked out for polling, if any.
    pub fn checked_out(&self) -> (r: Option<u64>)
        ensures
            r == self.checked_out_spec(),
    {
        self.checked_out
    }

    /// The table's allocation budget, exposed so that callers can observe
    /// compaction.
    pub fn capacity(&self) -> (c: usize)
        ensures
            c == self.futures_spec().cap_spec(),
    {
        self.futures.capacity()
    }

    /// Store a task under a fresh identifier and immediately record a wake
    /// request for it, so the first poll happens through the routed event
    /// path rather than inline.
    pub fn spawn(&mut self, task: T) -> (id: u64)
        requires
            old(self).ok(),
            old(self).futures_spec().next_id_spec() < u64::MAX,
        ensures
            final(self).ok(),
            id == old(self).futures_spec().next_id_spec(),
            !has_key(old(self).table(), id),
            final(self).table() == old(self).table().push((id, task)),
            final(self).futures_spec().next_id_spec() == id + 1,
            final(self).wakes() == old(self).wakes().push(id),
            final(self).checked_out_spec() == old(self).checked_out_spec(),
    {
        let id = self.futures.spawn(task);
        self.wake_queue.push(id);
        proof {
            match old(self).checked_out_spec() {
                Option::Some(out) => {
                    assert forall|i: int|
                        0 <= i < self.table().len() implies (#[trigger] self.table()[i].0)
                        != out by {
                        if i < old(self).table().len() {
                            assert(old(self).table()[i].0 != out);
                        }
                    }
                },
                Option::None => {},
            }
        }
        id
    }

    /// Take the wake requests recorded since the last call. The host glue
    /// turns each into a wake notification delivered on the control thread.
    pub fn take_wake_requests(&mut self) -> (r: Vec<u64>)
        ensures
            r@ == old(self).wakes(),
            final(self).wakes() == Seq::<u64>::empty(),
            final(self).table() == old(self).table(),
            final(self).futures_spec() == old(self).futures_spec(),
            final(self).checked_out_spec() == old(self).checked_out_spec(),
            old(self).ok() ==> final(self).ok(),
    {
        let mut taken: Vec<u64> = Vec::new();
        core::mem::swap(&mut taken, &mut self.wake_queue);
        taken
    }

    /// Check the task out of the table to poll it. Returns `None` for a
    /// stale or duplicate wake — a recoverable anomaly, never fatal.
    pub fn poll_take(&mut self, id: u64) -> (r: Option<T>)
        requires
            old(self).ok(),
            old(self).checked_out_spec() is None,
        ensures
            final(self).ok(),
            final(self).wakes() == old(self).wakes(),
            final(self).futures_spec().next_id_spec() == old(self).futures_spec().next_id_spec(),
            r is Some <==> has_key(old(self).table(), id),
            !has_key(old(self).table(), id) ==> {
                &&& final(self).table() == old(self).table()
                &&& final(self).checked_out_spec() is None
            },
            has_key(old(self).table(), id) ==> {
                &&& r == Option::Some(task_of_key(old(self).table(), id))
                &&& final(self).table() == old(self).table().remove(
                    idx_of_key(old(self).table(), id),
                )
                &&& final(self).checked_out_spec() == Option::Some(id)
            },
    {
        proof {
            if has_key(old(self).table(), id) {
                let i = idx_of_key(old(self).table(), id);
                assert(0 <= i < old(self).table().len() && old(self).table()[i].0 == id);
            }
        }
        let fetched = self.futures.fetch(id);
        if fetched.is_some() {
            self.checked_out = Option::Some(id);
        }
        fetched
    }

    /// Report that the checked-out task completed: it is dropped by the
    /// caller and the table is compacted.
    pub fn poll_ready(&mut self, id: u64)
        requires
            old(self).ok(),
            old(self).checked_out_spec() == Option::Some(id),
        ensures
            final(self).ok(),
            final(self).table() == old(self).table(),
            final(self).wakes() == old(self).wakes(),
            final(self).futures_spec().next_id_spec() == old(self).futures_spec().next_id_spec(),
            final(self).futures_spec().cap_spec() == shrunk_cap_table(
                old(self).table().len(),
                old(self).futures_spec().cap_spec(),
            ),
            final(self).checked_out_spec() is None,
    {
        self.checked_out = Option::None;
        self.futures.clean();
    }

    /// Report that the checked-out task is still pending: reinsert it under
    /// the same identifier.
    pub fn poll_pending(&mut self, id: u64, task: T)
        requires
            old(self).ok(),
            old(self).checked_out_spec() == Option::Some(id),
            id < old(self).futures_spec().next_id_spec(),
        ensures
            final(self).ok(),
            final(self).table() == old(self).table().push((id, task)),
            final(self).wakes() == old(self).wakes(),
            final(self).futures_spec().next_id_spec() == old(self).futures_spec().next_id_spec(),
            final(self).checked_out_spec() is None,
    {
        self.checked_out = Option::None;
        self.futures.insert(id, task);
    }

    /// Remove and return the task without polling it. No notification is
    /// sent; any cleanup a later resumption would have run does not run.
    pub fn cancel(&mut self, id: u64) -> (r: Option<T>)
        requires
            old(self).ok(),
        ensures
            final(self).ok(),
            final(self).wakes() == old(self).wakes(),
            final(self).futures_spec().next_id_spec() == old(self).futures_spec().next_id_spec(),
            final(self).checked_out_spec() == old(self).checked_out_spec(),
            r is Some <==> has_key(old(self).table(), id),
            !has_key(old(self).table(), id) ==> final(self).table() == old(self).table(),
            has_key(old(self).table(), id) ==> {
                &&& r == Option::Some(task_of_key(old(self).table(), id))
                &&& final(self).table() == old(self).table().remove(
                    idx_of_key(old(self).table(), id),
                )
                &&& !has_key(final(self).table(), id)
            },
    {
        self.futures.fetch(id)
    }
}

/// Single-residency law: a well-formed executor never has an identifier both
/// present in the table and checked out for polling. Every operation above
/// returns a well-formed executor, so this holds across any sequence of
/// spawn, poll and cancel operations.
pub proof fn lemma_single_residency<T>(rt: FutureRuntime<T>, id: u64)
    requires
        rt.ok(),
        rt.checked_out_spec() == Option::<u64>::Some(id),
    ensures
        !has_key(rt.table(), id),
{
}

/// One pending delay suspended inside a task, driven in two steps: a poll
/// step that reports readiness, registering a timeout with the waker's key
/// on the first pending poll, and the timeout's later firing, which the
/// event router turns back into a wake of the suspended task.
pub struct AsyncTimeout {
    instant: u64,
    registered: bool,
}

impl AsyncTimeout {
    /// The instant (in nanoseconds) at which the delay elapses.
    pub closed spec fn instant_spec(self) -> u64 {
        self.instant
    }

    /// Whether a timeout has been registered for this delay.
    pub closed spec fn registered_spec(self) -> bool {
        self.registered
    }

    pub fn new(instant: u64) -> (r: AsyncTimeout)
        ensures
            r.instant_spec() == instant,
            !r.registered_spec(),
    {
        AsyncTimeout { instant, registered: false }
    }

    /// One poll of the delay: ready once `now` has reached the instant;
    /// otherwise a timeout owned by the waker's key is installed on the
    /// first poll, and nothing happens on later ones.
    pub fn poll_step(&mut self, timer: &mut Timer, waker_key: u64, now: u64) -> (ready: bool)
        requires
            old(timer).valid(),
        ensures
            final(timer).valid(),
            ready == (now >= old(self).instant_spec()),
            final(self).instant_spec() == old(self).instant_spec(),
            ready ==> {
                &&& *final(timer) == *old(timer)
                &&& final(self).registered_spec() == old(self).registered_spec()
            },
            !ready && !old(self).registered_spec() ==> {
                &&& final(self).registered_spec()
                &&& exists|r: TimeoutResult|
                    set_transition(
                        *old(timer),
                        *final(timer),
                        AppTimeoutId::Async(waker_key),
                        old(self).instant_spec(),
                        false,
                        r,
                    )
            },
            !ready && old(self).registered_spec() ==> {
                &&& *final(timer) == *old(timer)
                &&& final(self).registered_spec()
            },
    {
        if now >= self.instant {
            return true;
        }
        if !self.registered {
            self.registered = true;
            let _ = timer.set_timeout(AppTimeoutId::Async(waker_key), self.instant);
        }
        false
    }
}

/// Factory for task-internal delays.
pub struct AsyncTimer {
    _private: (),
}

impl AsyncTimer {
    pub fn new() -> (r: AsyncTimer) {
        AsyncTimer { _private: () }
    }

    /// A delay that elapses at the given instant.
    pub fn timeout(&self, instant: u64) -> (r: AsyncTimeout)
        ensures
            r.instant_spec() == instant,
            !r.registered_spec(),
    {
        AsyncTimeout::new(instant)
    }

    /// A delay of `duration` nanoseconds from `now`, or `None` when the
    /// elapse instant cannot be represented.
    pub fn wait(&self, duration: u64, now: u64) -> (r: Option<AsyncTimeout>)
        ensures
            now + duration <= u64::MAX <==> r is Some,
            r matches Some(t) ==> t.instant_spec() == now + duration && !t.registered_spec(),
    {
        match now.checked_add(duration) {
            Option::Some(instant) => Option::Some(self.timeout(instant)),
            Option::None => Option::None,
        }
    }
}

} // verus!
