//! Task table: suspended tasks keyed by their identifier.
//!
//! The table is pure storage with no scheduling policy. A task is owned
//! exclusively by the table while pending; it is checked out (removed)
//! for a poll and either discarded or reinserted under the same identifier.

use vstd::prelude::*;
use crate::runtime::timer::grown_cap;

verus! {

/// Smallest allocation budget the table ever shrinks to.
pub const MIN_TABLE_CAPACITY: usize = 1024;

/// No identifier occurs twice.
pub open spec fn distinct_keys<T>(s: Seq<(u64, T)>) -> bool {
    forall|i: int, j: int| 0 <= i < j < s.len() ==> (#[trigger] s[i].0) != (#[trigger] s[j].0)
}

/// Some entry has the identifier.
pub open spec fn has_key<T>(s: Seq<(u64, T)>, id: u64) -> bool {
    exists|i: int| 0 <= i < s.len() && (#[trigger] s[i].0) == id
}

/// Index of the identifier's entry (unique when keys are distinct).
pub open spec fn idx_of_key<T>(s: Seq<(u64, T)>, id: u64) -> int {
    choose|i: int| 0 <= i < s.len() && (#[trigger] s[i].0) == id
}

/// The task stored under the identifier.
pub open spec fn task_of_key<T>(s: Seq<(u64, T)>, id: u64) -> T {
    s[idx_of_key(s, id)].1
}

/// Suspended tasks keyed by a monotonically assigned identifier.
pub struct AppFutures<T> {
    tasks: Vec<(u64, T)>,
    next_id: u64,
    cap: usize,
}

impl<T> AppFutures<T> {
    /// The stored entries, oldest first.
    pub closed spec fn entries(self) -> Seq<(u64, T)> {
        self.tasks@
    }

    /// The identifier the next spawn will assign.
    pub closed spec fn next_id_spec(self) -> u64 {
        self.next_id
    }

    /// The allocation budget the table currently maintains.
    pub closed spec fn cap_spec(self) -> usize {
        self.cap
    }

    /// Well-formedness: distinct identifiers, all below the next one to be
    /// assigned, and the maintained allocation budget never below its floor.
    pub open spec fn table_ok(self) -> bool {
        &&& distinct_keys(self.entries())
        &&& forall|i: int|
            0 <= i < self.entries().len() ==> (#[trigger] self.entries()[i].0)
                < self.next_id_spec()
        &&& MIN_TABLE_CAPACITY <= self.cap_spec()
    }

    pub fn new() -> (r: AppFutures<T>)
        ensures
            r.table_ok(),
            r.entries() == Seq::<(u64, T)>::empty(),
            r.next_id_spec() == 0,
            r.cap_spec() == MIN_TABLE_CAPACITY,
    {
        AppFutures { tasks: Vec::new(), next_id: 0, cap: MIN_TABLE_CAPACITY }
    }

    /// Number of stored tasks.
    pub fn len(&self) -> (n: usize)
        ensures
            n == self.entries().len(),
    {
        self.tasks.len()
    }

    /// The allocation budget, exposed so that callers can observe compaction.
    pub fn capacity(&self) -> (c: usize)
        ensures
            c == self.cap_spec(),
    {
        self.cap
    }

    /// The identifier the next spawn will assign.
    pub fn next_id(&self) -> (id: u64)
        ensures
            id == self.next_id_spec(),
    {
        self.next_id
    }

    /// Grow the tracked allocation budget when the table is full.
    fn grow_if_full(&mut self)
        ensures
            final(self).entries() == old(self).entries(),
            final(self).next_id_spec() == old(self).next_id_spec(),
            final(self).cap_spec() == if old(self).entries().len() == old(self).cap_spec() {
                grown_cap(old(self).cap_spec())
            } else {
                old(self).cap_spec()
            },
    {
        if self.tasks.len() == self.cap {
            self.cap = if self.cap <= usize::MAX / 2 {
                self.cap * 2
            } else {
                usize::MAX
            };
        }
    }

    /// Store a new task under a fresh identifier and return it.
    pub fn spawn(&mut self, task: T) -> (id: u64)
        requires
            old(self).table_ok(),
            old(self).next_id_spec() < u64::MAX,
        ensures
            final(self).table_ok(),
            id == old(self).next_id_spec(),
            !has_key(old(self).entries(), id),
            final(self).entries() == old(self).entries().push((id, task)),
            final(self).next_id_spec() == id + 1,
    {
        let id = self.next_id;
        proof {
            assert forall|i: int|
                0 <= i < self.entries().len() implies (#[trigger] self.entries()[i].0) != id by {
                assert(self.entries()[i].0 < id);
            }
            lemma_push_distinct(self.entries(), id, task, (id + 1) as u64);
        }
        self.grow_if_full();
        self.tasks.push((id, task));
        self.next_id = id + 1;
        id
    }

    /// Reinsert a task under the identifier it was checked out with.
    pub fn insert(&mut self, id: u64, task: T)
        requires
            old(self).table_ok(),
            !has_key(old(self).entries(), id),
            id < old(self).next_id_spec(),
        ensures
            final(self).table_ok(),
            final(self).entries() == old(self).entries().push((id, task)),
            final(self).next_id_spec() == old(self).next_id_spec(),
    {
        proof {
            lemma_push_distinct(self.entries(), id, task, old(self).next_id_spec());
        }
        self.grow_if_full();
        self.tasks.push((id, task));
    }

    /// Index of the identifier's entry.
    fn find_key_index(&self, id: u64) -> (r: Option<usize>)
        ensures
            match r {
                Option::Some(i) => {
                    &&& i < self.entries().len()
                    &&& self.entries()[i as int].0 == id
                    &&& forall|j: int| 0 <= j < i ==> (#[trigger] self.entries()[j].0) != id
                },
                Option::None => !has_key(self.entries(), id),
            },
    {
        let ghost s = self.entries();
        let mut i: usize = 0;
        while i < self.tasks.len()
            invariant
                i <= s.len(),
                s == self.entries(),
                forall|j: int| 0 <= j < i ==> (#[trigger] s[j].0) != id,
            decreases s.len() - i,
        {
            if self.tasks[i].0 == id {
                return Option::Some(i);
            }
            i = i + 1;
        }
        Option::None
    }

    /// Check the identifier's task out of the table, removing it.
    pub fn fetch(&mut self, id: u64) -> (r: Option<T>)
        requires
            old(self).table_ok(),
        ensures
            final(self).table_ok(),
            final(self).next_id_spec() == old(self).next_id_spec(),
            final(self).cap_spec() == old(self).cap_spec(),
            r is Some <==> has_key(old(self).entries(), id),
            !has_key(old(self).entries(), id) ==> final(self).entries() == old(self).entries(),
            has_key(old(self).entries(), id) ==> {
                &&& r == Option::Some(task_of_key(old(self).entries(), id))
                &&& final(self).entries() == old(self).entries().remove(
                    idx_of_key(old(self).entries(), id),
                )
                &&& !has_key(final(self).entries(), id)
            },
    {
        match self.find_key_index(id) {
            Option::None => Option::None,
            Option::Some(i) => {
                proof {
                    lemma_key_idx_of_found(self.entries(), id, i as int);
                    lemma_key_remove_keeps(self.entries(), i as int, self.next_id_spec());
                }
                let removed = self.tasks.remove(i);
                Option::Some(removed.1)
            },
        }
    }

    /// Compact the allocation budget once the table occupies at most a
    /// quarter of it.
    pub fn clean(&mut self)
        requires
            old(self).table_ok(),
        ensures
            final(self).table_ok(),
            final(self).entries() == old(self).entries(),
            final(self).next_id_spec() == old(self).next_id_spec(),
            final(self).cap_spec() == shrunk_cap_table(
                old(self).entries().len(),
                old(self).cap_spec(),
            ),
    {
        if self.tasks.len() <= self.cap / 4 {
            let half: usize = self.cap / 2;
            let new_cap: usize = if half > MIN_TABLE_CAPACITY {
                half
            } else {
                MIN_TABLE_CAPACITY
            };
            self.cap = new_cap;
            shrink_task_vec(&mut self.tasks, new_cap);
        }
    }
}

/// Allocation budget after the compaction rule: once the table occupies at
/// most a quarter of its budget, the budget halves, with a fixed floor.
pub open spec fn shrunk_cap_table(len: nat, cap: usize) -> usize {
    if len <= cap / 4 {
        if cap / 2 > MIN_TABLE_CAPACITY {
            (cap / 2) as usize
        } else {
            MIN_TABLE_CAPACITY
        }
    } else {
        cap
    }
}

/// Appending a fresh identifier keeps the keys distinct and below the bound.
proof fn lemma_push_distinct<T>(s: Seq<(u64, T)>, id: u64, task: T, bound: u64)
    requires
        distinct_keys(s),
        !has_key(s, id),
        forall|i: int| 0 <= i < s.len() ==> (#[trigger] s[i].0) < bound,
        id < bound,
    ensures
        distinct_keys(s.push((id, task))),
        forall|i: int|
            0 <= i < s.push((id, task)).len() ==> (#[trigger] s.push((id, task))[i].0) < bound,
{
    let s1 = s.push((id, task));
    assert forall|i: int, j: int| 0 <= i < j < s1.len() implies (#[trigger] s1[i].0) != (
    #[trigger] s1[j].0) by {
        if j < s.len() {
            assert(s1[i] == s[i] && s1[j] == s[j]);
        } else {
            assert(s1[j] == (id, task));
            assert(s1[i] == s[i]);
            assert(s[i].0 != id);
        }
    }
    assert forall|i: int| 0 <= i < s1.len() implies (#[trigger] s1[i].0) < bound by {
        if i < s.len() {
            assert(s1[i] == s[i]);
        } else {
            assert(s1[i] == (id, task));
        }
    }
}

/// A found index is the unique index of the identifier's entry.
proof fn lemma_key_idx_of_found<T>(s: Seq<(u64, T)>, id: u64, i: int)
    requires
        distinct_keys(s),
        0 <= i < s.len(),
        s[i].0 == id,
    ensures
        has_key(s, id),
        idx_of_key(s, id) == i,
        task_of_key(s, id) == s[i].1,
{
    assert(has_key(s, id));
    let j = idx_of_key(s, id);
    assert(0 <= j < s.len() && s[j].0 == id);
    if i != j {
        assert(false);
    }
}

/// Removing an entry keeps the keys distinct and below the bound.
proof fn lemma_key_remove_keeps<T>(s: Seq<(u64, T)>, i: int, bound: u64)
    requires
        distinct_keys(s),
        forall|a: int| 0 <= a < s.len() ==> (#[trigger] s[a].0) < bound,
        0 <= i < s.len(),
    ensures
        distinct_keys(s.remove(i)),
        forall|a: int| 0 <= a < s.remove(i).len() ==> (#[trigger] s.remove(i)[a].0) < bound,
        !has_key(s.remove(i), s[i].0),
{
    let sr = s.remove(i);
    assert forall|a: int| 0 <= a < sr.len() implies sr[a] == (if a < i {
        s[a]
    } else {
        s[a + 1]
    }) by {}
}

/// Relies on `Vec::shrink_to`: reduces the allocation toward the given lower
/// bound while leaving the contents untouched.
#[verifier::external_body]
fn shrink_task_vec<T>(v: &mut Vec<(u64, T)>, min_capacity: usize)
    ensures
        final(v)@ == old(v)@,
{
    v.shrink_to(min_capacity);
}

} // verus!
