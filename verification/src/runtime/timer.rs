//! Time-ordered timeout queue.
//!
//! The queue holds at most one pending timeout per owner, keeps its entries
//! ascending by wake time, and records a one-shot "front changed" update so
//! the host's wait policy is only recomputed when the next-to-fire entry
//! actually changed. Wake times are plain nanosecond counts supplied by the
//! caller; the queue never reads a clock itself.

use vstd::prelude::*;
use std::collections::VecDeque;
use crate::app::AppTimeoutId;

verus! {

/// Smallest allocation budget the queue ever shrinks to.
pub const MIN_QUEUE_CAPACITY: usize = 1024;

/// What a set or cancel operation found.
#[derive(Debug, Clone, Copy, PartialEq, Eq, Hash, Structural)]
pub enum TimeoutResult {
    /// No timeout existed for the owner.
    Missing,
    /// A timeout with the given wake time was removed (or replaced).
    Canceled(u64),
    /// A timeout with the given wake time was at or before the threshold and
    /// was left untouched.
    FoundEarlier(u64),
}

impl TimeoutResult {
    pub fn was_none(&self) -> (r: bool)
        ensures
            r == (*self is Missing),
    {
        matches!(self, TimeoutResult::Missing)
    }

    pub fn was_canceld(&self) -> (r: bool)
        ensures
            r == (*self is Canceled),
    {
        matches!(self, TimeoutResult::Canceled(_))
    }

    pub fn found_earlier(&self) -> (r: bool)
        ensures
            r == (*self is FoundEarlier),
    {
        matches!(self, TimeoutResult::FoundEarlier(_))
    }
}

/// A pending timeout: an owner and the instant (in nanoseconds) at which it
/// should fire.
#[derive(Debug, Clone, Copy, PartialEq, Eq, Hash, Structural)]
pub struct Timeout {
    pub id: AppTimeoutId,
    pub instant: u64,
}

/// The queue is ascending by wake time.
pub open spec fn sorted_by_instant(q: Seq<Timeout>) -> bool {
    forall|i: int, j: int|
        0 <= i < j < q.len() ==> #[trigger] q[i].instant <= #[trigger] q[j].instant
}

/// No owner occurs twice.
pub open spec fn distinct_ids(q: Seq<Timeout>) -> bool {
    forall|i: int, j: int| 0 <= i < j < q.len() ==> #[trigger] q[i].id != #[trigger] q[j].id
}

/// Some entry belongs to the owner.
pub open spec fn has_id(q: Seq<Timeout>, id: AppTimeoutId) -> bool {
    exists|i: int| 0 <= i < q.len() && (#[trigger] q[i].id) == id
}

/// Index of the owner's entry (unique when ids are distinct).
pub open spec fn idx_of_id(q: Seq<Timeout>, id: AppTimeoutId) -> int {
    choose|i: int| 0 <= i < q.len() && (#[trigger] q[i].id) == id
}

/// Wake time of the owner's entry.
pub open spec fn instant_of_id(q: Seq<Timeout>, id: AppTimeoutId) -> u64 {
    q[idx_of_id(q, id)].instant
}

/// Wake time of the next-to-fire entry, if any.
pub open spec fn front_instant(q: Seq<Timeout>) -> Option<u64> {
    if q.len() == 0 {
        Option::None
    } else {
        Option::Some(q[0].instant)
    }
}

/// The queue without the owner's entry (unchanged when none exists).
pub open spec fn remove_id(q: Seq<Timeout>, id: AppTimeoutId) -> Seq<Timeout> {
    if has_id(q, id) {
        q.remove(idx_of_id(q, id))
    } else {
        q
    }
}

/// `k` is where a new entry with wake time `t` lands: after every entry at or
/// before `t`, before the first strictly later one.
pub open spec fn is_insert_pos(q: Seq<Timeout>, t: u64, k: int) -> bool {
    &&& 0 <= k <= q.len()
    &&& forall|j: int| 0 <= j < k ==> (#[trigger] q[j].instant) <= t
    &&& (k == q.len() || q[k].instant > t)
}

/// Allocation budget after an insertion into a full queue.
pub open spec fn grown_cap(cap: usize) -> usize {
    if cap <= usize::MAX / 2 {
        (cap * 2) as usize
    } else {
        usize::MAX
    }
}

/// Allocation budget after the opportunistic compaction on a pop: once the
/// queue occupies at most a quarter of its budget, the budget halves, with a
/// fixed floor.
pub open spec fn shrunk_cap(len: nat, cap: usize) -> usize {
    if len <= cap / 4 {
        if cap / 2 > MIN_QUEUE_CAPACITY {
            (cap / 2) as usize
        } else {
            MIN_QUEUE_CAPACITY
        }
    } else {
        cap
    }
}

/// Time-ordered timeout queue with a one-shot wait-policy update flag.
#[derive(Debug, Clone)]
pub struct Timer {
    queue: VecDeque<Timeout>,
    set_instant: Option<Option<u64>>,
    cap: usize,
}

/// How `cancel_timeout` changes a queue: nothing when the owner has no entry;
/// nothing but a `FoundEarlier` answer when the entry is at or before the
/// threshold; otherwise the entry is removed, updating the front-changed flag
/// if it was at the front.
pub open spec fn cancel_transition(
    pre: Timer,
    post: Timer,
    id: AppTimeoutId,
    if_later_than: Option<u64>,
    r: TimeoutResult,
) -> bool {
    let q0 = pre.entries();
    &&& post.cap_spec() == pre.cap_spec()
    &&& if !has_id(q0, id) {
        &&& r == TimeoutResult::Missing
        &&& post.entries() == q0
        &&& post.pending_update() == pre.pending_update()
    } else {
        let i = idx_of_id(q0, id);
        let t0 = q0[i].instant;
        if if_later_than matches Option::Some(th) && t0 <= th {
            &&& r == TimeoutResult::FoundEarlier(t0)
            &&& post.entries() == q0
            &&& post.pending_update() == pre.pending_update()
        } else {
            &&& r == TimeoutResult::Canceled(t0)
            &&& post.entries() == q0.remove(i)
            &&& post.pending_update() == if i == 0 {
                Option::Some(front_instant(post.entries()))
            } else {
                pre.pending_update()
            }
        }
    }
}

/// An `OnlyIfEarlier` set is a no-op exactly when the owner already has an
/// entry at or before the requested wake time.
pub open spec fn set_blocked(
    q: Seq<Timeout>,
    id: AppTimeoutId,
    instant: u64,
    if_earlier: bool,
) -> bool {
    if_earlier && has_id(q, id) && instant_of_id(q, id) <= instant
}

/// How a set operation changes a queue: unless blocked, any old entry of the
/// owner is removed and the new one inserted keeping ascending order, with
/// the front-changed flag updated when either step touches the front.
pub open spec fn set_transition(
    pre: Timer,
    post: Timer,
    id: AppTimeoutId,
    instant: u64,
    if_earlier: bool,
    r: TimeoutResult,
) -> bool {
    let q0 = pre.entries();
    if set_blocked(q0, id, instant, if_earlier) {
        &&& r == TimeoutResult::FoundEarlier(instant_of_id(q0, id))
        &&& post.entries() == q0
        &&& post.pending_update() == pre.pending_update()
        &&& post.cap_spec() == pre.cap_spec()
    } else {
        let q1 = remove_id(q0, id);
        let front_removed = has_id(q0, id) && idx_of_id(q0, id) == 0;
        &&& r == if has_id(q0, id) {
            TimeoutResult::Canceled(instant_of_id(q0, id))
        } else {
            TimeoutResult::Missing
        }
        &&& exists|k: int|
            {
                &&& #[trigger] is_insert_pos(q1, instant, k)
                &&& post.entries() == q1.insert(k, Timeout { id, instant })
                &&& post.pending_update() == if front_removed || k == 0 {
                    Option::Some(Option::Some(post.entries()[0].instant))
                } else {
                    pre.pending_update()
                }
            }
        &&& post.cap_spec() == if q1.len() == pre.cap_spec() {
            grown_cap(pre.cap_spec())
        } else {
            pre.cap_spec()
        }
    }
}

/// How `pop_timeout` changes a queue: the front entry leaves exactly when its
/// wake time has been reached, the front-changed flag is set, and the
/// allocation budget is compacted.
pub open spec fn pop_transition(pre: Timer, post: Timer, now: u64, r: Option<Timeout>) -> bool {
    let q0 = pre.entries();
    if q0.len() > 0 && q0[0].instant <= now {
        &&& r == Option::Some(q0[0])
        &&& post.entries() == q0.drop_first()
        &&& post.pending_update() == Option::Some(front_instant(post.entries()))
        &&& post.cap_spec() == shrunk_cap(post.entries().len(), pre.cap_spec())
    } else {
        &&& r is None
        &&& post.entries() == q0
        &&& post.pending_update() == pre.pending_update()
        &&& post.cap_spec() == pre.cap_spec()
    }
}

impl Timer {
    /// The pending timeouts, front first.
    pub closed spec fn entries(self) -> Seq<Timeout> {
        self.queue@
    }

    /// The not-yet-consumed wait-policy update: `None` when the front did not
    /// change since the last take, otherwise the new front wake time
    /// (`Some(None)` meaning the queue emptied).
    pub closed spec fn pending_update(self) -> Option<Option<u64>> {
        self.set_instant
    }

    /// The allocation budget the queue currently maintains.
    pub closed spec fn cap_spec(self) -> usize {
        self.cap
    }

    /// Well-formedness: ascending wake times, one entry per owner, and the
    /// maintained allocation budget never below its floor.
    pub open spec fn valid(self) -> bool {
        &&& sorted_by_instant(self.entries())
        &&& distinct_ids(self.entries())
        &&& MIN_QUEUE_CAPACITY <= self.cap_spec()
    }

    pub fn new() -> (r: Timer)
        ensures
            r.valid(),
            r.entries() == Seq::<Timeout>::empty(),
            r.pending_update() is None,
            r.cap_spec() == MIN_QUEUE_CAPACITY,
    {
        Timer { queue: VecDeque::new(), set_instant: Option::None, cap: MIN_QUEUE_CAPACITY }
    }

    /// Number of pending timeouts.
    pub fn len(&self) -> (n: usize)
        ensures
            n == self.entries().len(),
    {
        self.queue.len()
    }

    /// The allocation budget, exposed so that callers can observe compaction.
    pub fn capacity(&self) -> (c: usize)
        ensures
            c == self.cap_spec(),
    {
        self.cap
    }

    /// Wake time of the next-to-fire entry.
    pub fn earliest_instant(&self) -> (r: Option<u64>)
        ensures
            r == front_instant(self.entries()),
    {
        if self.queue.len() > 0 {
            Option::Some(self.queue[0].instant)
        } else {
            Option::None
        }
    }

    /// One-shot consumption of the front-changed flag. Returns `None` when
    /// the front did not change since the previous call; otherwise the new
    /// desired wait policy: `Some(None)` to wait indefinitely (queue empty),
    /// `Some(Some(t))` to wake no later than `t`.
    pub fn take_set_instant(&mut self) -> (r: Option<Option<u64>>)
        ensures
            r == old(self).pending_update(),
            final(self).pending_update() is None,
            final(self).entries() == old(self).entries(),
            final(self).cap_spec() == old(self).cap_spec(),
            old(self).valid() ==> final(self).valid(),
    {
        self.set_instant.take()
    }

    /// Index of the owner's entry, scanning from the front.
    fn find_id_index(&self, id: &AppTimeoutId) -> (r: Option<usize>)
        ensures
            match r {
                Option::Some(i) => {
                    &&& i < self.entries().len()
                    &&& self.entries()[i as int].id == *id
                    &&& forall|j: int| 0 <= j < i ==> (#[trigger] self.entries()[j].id) != *id
                },
                Option::None => !has_id(self.entries(), *id),
            },
    {
        let ghost q = self.entries();
        let mut i: usize = 0;
        while i < self.queue.len()
            invariant
                i <= q.len(),
                q == self.entries(),
                forall|j: int| 0 <= j < i ==> (#[trigger] q[j].id) != *id,
            decreases q.len() - i,
        {
            if self.queue[i].id == *id {
                return Option::Some(i);
            }
            i = i + 1;
        }
        Option::None
    }

    /// Wake time of the owner's pending timeout, if one exists.
    pub fn get_timeout(&self, id: &AppTimeoutId) -> (r: Option<u64>)
        requires
            self.valid(),
        ensures
            r is Some <==> has_id(self.entries(), *id),
            r matches Some(t) ==> t == instant_of_id(self.entries(), *id),
    {
        match self.find_id_index(id) {
            Option::Some(i) => {
                proof {
                    lemma_idx_of_found(self.entries(), *id, i as int);
                }
                Option::Some(self.queue[i].instant)
            },
            Option::None => Option::None,
        }
    }

    /// Remove the owner's pending timeout. With a threshold, an entry at or
    /// before it is treated as too late to cancel and left untouched.
    pub fn cancel_timeout(&mut self, id: &AppTimeoutId, if_later_than: Option<u64>) -> (r:
        TimeoutResult)
        requires
            old(self).valid(),
        ensures
            final(self).valid(),
            cancel_transition(*old(self), *final(self), *id, if_later_than, r),
    {
        match self.find_id_index(id) {
            Option::None => TimeoutResult::Missing,
            Option::Some(i) => {
                proof {
                    lemma_idx_of_found(self.entries(), *id, i as int);
                }
                let instant = self.queue[i].instant;
                if let Option::Some(threshold) = if_later_than {
                    if instant <= threshold {
                        return TimeoutResult::FoundEarlier(instant);
                    }
                }
                proof {
                    lemma_remove_keeps_valid(self.entries(), i as int);
                }
                self.queue.remove(i);
                if i == 0 {
                    let e = self.earliest_instant();
                    self.set_instant = Option::Some(e);
                }
                TimeoutResult::Canceled(instant)
            },
        }
    }

    /// Install a timeout for the owner, replacing any existing one; with
    /// `if_earlier`, keep an existing entry that is already at or before the
    /// requested wake time.
    fn set_timeout_opt_earlier(&mut self, timeout: Timeout, if_earlier: bool) -> (r: TimeoutResult)
        requires
            old(self).valid(),
        ensures
            final(self).valid(),
            set_transition(*old(self), *final(self), timeout.id, timeout.instant, if_earlier, r),
    {
        let ghost pre = *old(self);
        let cancel_if_later_than = if if_earlier {
            Option::Some(timeout.instant)
        } else {
            Option::None
        };

        let timeout_result = self.cancel_timeout(&timeout.id, cancel_if_later_than);
        if timeout_result.found_earlier() {
            return timeout_result;
        }

        let ghost q1 = self.entries();
        proof {
            assert(q1 == remove_id(pre.entries(), timeout.id));
        }

        // grow the tracked allocation budget when the queue is full
        if self.queue.len() == self.cap {
            self.cap = if self.cap <= usize::MAX / 2 {
                self.cap * 2
            } else {
                usize::MAX
            };
        }

        let mut i: usize = 0;
        while i < self.queue.len() && self.queue[i].instant <= timeout.instant
            invariant
                i <= q1.len(),
                q1 == self.entries(),
                forall|j: int| 0 <= j < i ==> (#[trigger] q1[j].instant) <= timeout.instant,
            decreases q1.len() - i,
        {
            i = i + 1;
        }
        proof {
            assert(is_insert_pos(q1, timeout.instant, i as int));
            lemma_insert_keeps_valid(q1, timeout, i as int);
        }
        if i == 0 {
            self.set_instant = Option::Some(Option::Some(timeout.instant));
        }
        self.queue.insert(i, timeout);
        timeout_result
    }

    /// Install a timeout for the owner, replacing any existing one.
    pub fn set_timeout(&mut self, id: AppTimeoutId, instant: u64) -> (r: TimeoutResult)
        requires
            old(self).valid(),
        ensures
            final(self).valid(),
            set_transition(*old(self), *final(self), id, instant, false, r),
    {
        self.set_timeout_opt_earlier(Timeout { id, instant }, false)
    }

    /// Install a timeout for the owner unless an earlier one is already
    /// pending.
    pub fn set_timeout_earlier(&mut self, id: AppTimeoutId, instant: u64) -> (r: TimeoutResult)
        requires
            old(self).valid(),
        ensures
            final(self).valid(),
            set_transition(*old(self), *final(self), id, instant, true, r),
    {
        self.set_timeout_opt_earlier(Timeout { id, instant }, true)
    }

    /// Install a timeout `duration` nanoseconds from `now`. When the wake
    /// time cannot be represented, the timeout could never fire: any existing
    /// entry for the owner is canceled instead.
    pub fn set_timeout_wait(&mut self, id: AppTimeoutId, duration: u64, now: u64) -> (r:
        TimeoutResult)
        requires
            old(self).valid(),
        ensures
            final(self).valid(),
            now + duration <= u64::MAX ==> set_transition(
                *old(self),
                *final(self),
                id,
                (now + duration) as u64,
                false,
                r,
            ),
            now + duration > u64::MAX ==> cancel_transition(
                *old(self),
                *final(self),
                id,
                Option::None,
                r,
            ),
    {
        match now.checked_add(duration) {
            Option::Some(instant) => self.set_timeout(id, instant),
            Option::None => self.cancel_timeout(&id, Option::None),
        }
    }

    /// Like `set_timeout_wait`, but keeps an existing earlier entry. An
    /// unrepresentable wake time is later than any pending entry, so an
    /// existing entry is always reported as earlier.
    pub fn set_timeout_wait_earlier(&mut self, id: AppTimeoutId, duration: u64, now: u64) -> (r:
        TimeoutResult)
        requires
            old(self).valid(),
        ensures
            final(self).valid(),
            now + duration <= u64::MAX ==> set_transition(
                *old(self),
                *final(self),
                id,
                (now + duration) as u64,
                true,
                r,
            ),
            now + duration > u64::MAX ==> {
                &&& final(self).entries() == old(self).entries()
                &&& final(self).pending_update() == old(self).pending_update()
                &&& final(self).cap_spec() == old(self).cap_spec()
                &&& r == if has_id(old(self).entries(), id) {
                    TimeoutResult::FoundEarlier(instant_of_id(old(self).entries(), id))
                } else {
                    TimeoutResult::Missing
                }
            },
    {
        match now.checked_add(duration) {
            Option::Some(instant) => self.set_timeout_earlier(id, instant),
            Option::None => {
                match self.get_timeout(&id) {
                    Option::Some(instant) => TimeoutResult::FoundEarlier(instant),
                    Option::None => TimeoutResult::Missing,
                }
            },
        }
    }

    /// Compact the allocation budget once the queue occupies at most a
    /// quarter of it.
    fn shrink_queue(&mut self)
        requires
            old(self).valid(),
        ensures
            final(self).valid(),
            final(self).entries() == old(self).entries(),
            final(self).pending_update() == old(self).pending_update(),
            final(self).cap_spec() == shrunk_cap(old(self).entries().len(), old(self).cap_spec()),
    {
        if self.queue.len() <= self.cap / 4 {
            let half: usize = self.cap / 2;
            let new_cap: usize = if half > MIN_QUEUE_CAPACITY {
                half
            } else {
                MIN_QUEUE_CAPACITY
            };
            self.cap = new_cap;
            shrink_deque(&mut self.queue, new_cap);
        }
    }

    /// Remove and return the front entry if its wake time has been reached.
    pub fn pop_timeout(&mut self, now: u64) -> (r: Option<Timeout>)
        requires
            old(self).valid(),
        ensures
            final(self).valid(),
            pop_transition(*old(self), *final(self), now, r),
            r matches Some(t) ==> t.instant <= now,
    {
        if self.queue.len() > 0 {
            if self.queue[0].instant <= now {
                proof {
                    lemma_drop_first_keeps_valid(self.entries());
                }
                let popped = self.queue.pop_front();
                let e = self.earliest_instant();
                self.set_instant = Option::Some(e);
                self.shrink_queue();
                return popped;
            }
        }
        Option::None
    }
}

/// Timer ordering law: in a well-formed queue every entry fires no later
/// than the ones behind it, so the front is always the next to fire. Each
/// operation above returns a well-formed queue, so this holds after every
/// operation.
pub proof fn lemma_timer_sorted(t: Timer, i: int, j: int)
    requires
        t.valid(),
        0 <= i <= j < t.entries().len(),
    ensures
        t.entries()[i].instant <= t.entries()[j].instant,
{
}

/// One-per-owner law: in a well-formed queue no owner has two pending
/// timeouts, so after any set at most one entry exists for the owner.
pub proof fn lemma_one_per_owner(t: Timer, i: int, j: int)
    requires
        t.valid(),
        0 <= i < t.entries().len(),
        0 <= j < t.entries().len(),
        i != j,
    ensures
        t.entries()[i].id != t.entries()[j].id,
{
}

/// Front-change signaling law (cancel): the one-shot wait-policy update is
/// left untouched unless the cancellation removed the front entry, in which
/// case the update names the new front. Together with the contract of
/// `take_set_instant`, which returns exactly the accumulated update and
/// clears it, a take yields a value exactly when some operation since the
/// previous take touched the front of the queue.
pub proof fn lemma_cancel_front_signaling(
    pre: Timer,
    post: Timer,
    id: AppTimeoutId,
    if_later_than: Option<u64>,
    r: TimeoutResult,
)
    requires
        cancel_transition(pre, post, id, if_later_than, r),
    ensures
        post.pending_update() != pre.pending_update() ==> {
            &&& has_id(pre.entries(), id)
            &&& idx_of_id(pre.entries(), id) == 0
            &&& post.pending_update() == Option::Some(front_instant(post.entries()))
        },
{
}

/// Front-change signaling law (set): the one-shot wait-policy update is left
/// untouched unless the operation removed or inserted at the front, in which
/// case the update names the final front entry's wake time.
pub proof fn lemma_set_front_signaling(
    pre: Timer,
    post: Timer,
    id: AppTimeoutId,
    instant: u64,
    if_earlier: bool,
    r: TimeoutResult,
)
    requires
        set_transition(pre, post, id, instant, if_earlier, r),
    ensures
        post.pending_update() != pre.pending_update() ==> post.entries().len() > 0
            && post.pending_update() == Option::Some(
            Option::Some(post.entries()[0].instant),
        ),
{
}

/// Front-change signaling law (pop): removing the front entry always leaves
/// an update naming the new front; not popping leaves the update untouched.
pub proof fn lemma_pop_front_signaling(pre: Timer, post: Timer, now: u64, r: Option<Timeout>)
    requires
        pop_transition(pre, post, now, r),
    ensures
        r is Some ==> post.pending_update() == Option::Some(front_instant(post.entries())),
        r is None ==> post.pending_update() == pre.pending_update(),
{
}

/// A found index is the unique index of the owner's entry.
pub proof fn lemma_idx_of_found(q: Seq<Timeout>, id: AppTimeoutId, i: int)
    requires
        distinct_ids(q),
        0 <= i < q.len(),
        q[i].id == id,
    ensures
        has_id(q, id),
        idx_of_id(q, id) == i,
        instant_of_id(q, id) == q[i].instant,
{
    assert(has_id(q, id));
    let j = idx_of_id(q, id);
    assert(0 <= j < q.len() && q[j].id == id);
    if i != j {
        assert(false);
    }
}

/// Removing an entry keeps the queue sorted with distinct owners.
proof fn lemma_remove_keeps_valid(q: Seq<Timeout>, i: int)
    requires
        sorted_by_instant(q),
        distinct_ids(q),
        0 <= i < q.len(),
    ensures
        sorted_by_instant(q.remove(i)),
        distinct_ids(q.remove(i)),
        !has_id(q.remove(i), q[i].id),
{
    let qr = q.remove(i);
    assert forall|a: int| 0 <= a < qr.len() implies qr[a] == (if a < i {
        q[a]
    } else {
        q[a + 1]
    }) by {}
}

/// Dropping the front keeps the queue sorted with distinct owners.
proof fn lemma_drop_first_keeps_valid(q: Seq<Timeout>)
    requires
        sorted_by_instant(q),
        distinct_ids(q),
        q.len() > 0,
    ensures
        sorted_by_instant(q.drop_first()),
        distinct_ids(q.drop_first()),
{
    let qr = q.drop_first();
    assert forall|a: int| 0 <= a < qr.len() implies qr[a] == q[a + 1] by {}
}

/// Inserting a fresh owner at its position keeps the queue sorted with
/// distinct owners.
proof fn lemma_insert_keeps_valid(q: Seq<Timeout>, t: Timeout, k: int)
    requires
        sorted_by_instant(q),
        distinct_ids(q),
        !has_id(q, t.id),
        is_insert_pos(q, t.instant, k),
    ensures
        sorted_by_instant(q.insert(k, t)),
        distinct_ids(q.insert(k, t)),
{
    let qi = q.insert(k, t);
    assert forall|a: int| 0 <= a < qi.len() implies qi[a] == (if a < k {
        q[a]
    } else if a == k {
        t
    } else {
        q[a - 1]
    }) by {}
    assert forall|a: int, b: int| 0 <= a < b < qi.len() implies qi[a].instant <= qi[b].instant by {
        if a < k && b > k {
            assert(qi[b] == q[b - 1]);
        }
    }
    assert forall|a: int, b: int| 0 <= a < b < qi.len() implies qi[a].id != qi[b].id by {
        if a != k && b != k {
        } else if a == k {
            assert(qi[b] == q[b - 1]);
            assert(has_id(q, q[b - 1].id));
        } else {
            assert(has_id(q, q[a].id));
        }
    }
}

/// Relies on `VecDeque::shrink_to`: reduces the allocation toward the given
/// lower bound while leaving the contents untouched.
#[verifier::external_body]
fn shrink_deque(q: &mut VecDeque<Timeout>, min_capacity: usize)
    ensures
        final(q)@ == old(q)@,
{
    q.shrink_to(min_capacity);
}

} // verus!
