//! Interval bookkeeping over plain nanosecond counts.
//!
//! A step interval tracks the next instant of a repeating period and can be
//! stepped forward whole periods at a time; a counter tallies events per
//! period. Callers supply the current instant; nothing here reads a clock.

use vstd::prelude::*;

verus! {

/// An interval anchored at an instant.
pub struct NormInterval {
    pub instant: u64,
    pub duration: u64,
}

impl NormInterval {
    pub fn new(duration: u64, now: u64) -> (r: NormInterval)
        ensures
            r.instant == now,
            r.duration == duration,
    {
        NormInterval { instant: now, duration }
    }
}

/// How many whole periods `instant` lies past `next`: one or more when the
/// next step has been reached, zero or less when it has not.
pub open spec fn step_elapsed(next: u64, duration: u64, instant: u64) -> int {
    if instant >= next {
        (instant - next) / (duration as int) + 1
    } else {
        -((next - instant) / (duration as int))
    }
}

/// The magnitude of a step count.
pub open spec fn abs_steps(times: int) -> int {
    if times >= 0 {
        times
    } else {
        -times
    }
}

/// A repeating period together with the instant of its next step.
pub struct StepInterval {
    pub next: u64,
    pub duration: u64,
}

impl StepInterval {
    /// The elapsed-count bounds under which `elapsed` is well defined.
    pub open spec fn elapsed_fits(self, instant: u64) -> bool {
        &&& self.duration > 0
        &&& i64::MIN < step_elapsed(self.next, self.duration, instant)
        &&& step_elapsed(self.next, self.duration, instant) <= i64::MAX
    }

    /// Whether stepping by `times` periods stays within the duration range.
    pub open spec fn step_by_fits(self, times: int) -> bool {
        self.duration * abs_steps(times) <= u64::MAX
    }

    /// The next-step instant after stepping by `times`: the step width is
    /// added for positive and negative counts alike, and an instant out of
    /// range leaves the interval unchanged.
    pub open spec fn stepped(self, times: int) -> StepInterval {
        if times != 0 && self.next + self.duration * abs_steps(times) <= u64::MAX {
            StepInterval {
                next: (self.next + self.duration * abs_steps(times)) as u64,
                duration: self.duration,
            }
        } else {
            self
        }
    }

    pub fn new(duration: u64, now: u64) -> (r: StepInterval)
        requires
            now + duration <= u64::MAX,
        ensures
            r.next == now + duration,
            r.duration == duration,
    {
        StepInterval { next: now + duration, duration }
    }

    /// How many whole periods `instant` lies past the next step.
    pub fn elapsed(&self, instant: u64) -> (r: i64)
        requires
            self.elapsed_fits(instant),
        ensures
            r == step_elapsed(self.next, self.duration, instant),
    {
        if instant >= self.next {
            ((instant - self.next) / self.duration) as i64 + 1
        } else {
            -(((self.next - instant) / self.duration) as i64)
        }
    }

    /// Step by the given number of periods.
    pub fn step_by(&mut self, times: i64)
        requires
            old(self).step_by_fits(times as int),
        ensures
            *final(self) == old(self).stepped(times as int),
    {
        if times != 0 {
            let steps: u64 = if times >= 0 {
                times as u64
            } else if times == i64::MIN {
                9223372036854775808u64
            } else {
                (-times) as u64
            };
            assert(steps == abs_steps(times as int));
            let width: u64 = self.duration * steps;
            match self.next.checked_add(width) {
                Option::Some(next) => {
                    self.next = next;
                },
                Option::None => {},
            }
        }
    }

    /// Step past `instant` if at least one period has elapsed; report the
    /// elapsed count either way.
    pub fn step_if_elapsed(&mut self, instant: u64) -> (r: i64)
        requires
            old(self).elapsed_fits(instant),
            old(self).step_by_fits(step_elapsed(old(self).next, old(self).duration, instant)),
        ensures
            r == step_elapsed(old(self).next, old(self).duration, instant),
            r >= 1 ==> *final(self) == old(self).stepped(r as int),
            r < 1 ==> *final(self) == *old(self),
    {
        let elapsed = self.elapsed(instant);
        if elapsed >= 1 {
            self.step_by(elapsed);
        }
        elapsed
    }

    /// Step so that the next step lies ahead of `instant`; report the
    /// elapsed count.
    pub fn step_next(&mut self, instant: u64) -> (r: i64)
        requires
            old(self).elapsed_fits(instant),
            step_elapsed(old(self).next, old(self).duration, instant) > i64::MIN + 1,
            old(self).step_by_fits(step_elapsed(old(self).next, old(self).duration, instant)),
            old(self).step_by_fits(step_elapsed(old(self).next, old(self).duration, instant) - 1),
        ensures
            r == step_elapsed(old(self).next, old(self).duration, instant),
            r >= 1 ==> *final(self) == old(self).stepped(r as int),
            r < 1 ==> *final(self) == old(self).stepped(r as int - 1),
    {
        let elapsed = self.elapsed(instant);
        if elapsed >= 1 {
            self.step_by(elapsed);
        } else {
            self.step_by(elapsed - 1);
        }
        elapsed
    }
}

/// Tallies events and reports the tally once per interval.
pub struct IntervalCounter {
    pub count: usize,
    pub interval: StepInterval,
}

impl IntervalCounter {
    pub fn new(duration: u64, now: u64) -> (r: IntervalCounter)
        requires
            now + duration <= u64::MAX,
        ensures
            r.count == 0,
            r.interval.next == now + duration,
            r.interval.duration == duration,
    {
        IntervalCounter { count: 0, interval: StepInterval::new(duration, now) }
    }

    /// Tally one event.
    pub fn add(&mut self)
        requires
            old(self).count < usize::MAX,
        ensures
            final(self).count == old(self).count + 1,
            final(self).interval == old(self).interval,
    {
        self.count = self.count + 1;
    }

    /// Once per interval, take the tally and restart it.
    pub fn count(&mut self, now: u64) -> (r: Option<usize>)
        requires
            old(self).interval.elapsed_fits(now),
            old(self).interval.step_by_fits(
                step_elapsed(old(self).interval.next, old(self).interval.duration, now),
            ),
        ensures
            step_elapsed(old(self).interval.next, old(self).interval.duration, now) >= 1 ==> {
                &&& r == Option::Some(old(self).count)
                &&& final(self).count == 0
            },
            step_elapsed(old(self).interval.next, old(self).interval.duration, now) < 1 ==> {
                &&& r is None
                &&& *final(self) == *old(self)
            },
    {
        if self.interval.step_if_elapsed(now) >= 1 {
            let counted = self.count;
            self.count = 0;
            Option::Some(counted)
        } else {
            Option::None
        }
    }
}

} // verus!
