//! Host wait-mode helpers: merging a new wake instant into the host's
//! current wait mode, and deriving a frame duration from a monitor's
//! refresh rate. The host glue applies the results to its event loop.

use vstd::prelude::*;

verus! {

/// The host's instruction for how long to block before the next callback
/// cycle.
#[derive(Debug, Clone, Copy, PartialEq, Eq, Hash, Structural)]
pub enum WaitMode {
    /// Poll continuously.
    Poll,
    /// Wait indefinitely for the next event.
    Wait,
    /// Wake no later than the given instant.
    WaitUntil(u64),
}

/// The wait mode that wakes no later than `instant` while keeping any
/// stricter behaviour of the current mode.
pub fn set_earlier(current: WaitMode, instant: u64) -> (r: WaitMode)
    ensures
        r == match current {
            WaitMode::Poll => WaitMode::Poll,
            WaitMode::Wait => WaitMode::WaitUntil(instant),
            WaitMode::WaitUntil(other) => WaitMode::WaitUntil(
                if instant <= other {
                    instant
                } else {
                    other
                },
            ),
        },
{
    match current {
        WaitMode::Poll => WaitMode::Poll,
        WaitMode::Wait => WaitMode::WaitUntil(instant),
        WaitMode::WaitUntil(other) => WaitMode::WaitUntil(
            if instant <= other {
                instant
            } else {
                other
            },
        ),
    }
}

/// The refresh rate shared by every monitor, when they all report one and
/// agree on it.
pub open spec fn common_rate(rates: Seq<Option<u32>>) -> Option<u32> {
    if rates.len() > 0 && (rates[0] is Some) && (forall|i: int|
        0 <= i < rates.len() ==> #[trigger] rates[i] == rates[0]) {
        rates[0]
    } else {
        Option::None
    }
}

/// The refresh rate (in millihertz) that all monitors agree on, or `None`
/// when there is no monitor, one reports no rate, or they disagree.
pub fn common_refresh_rate(rates: &Vec<Option<u32>>) -> (r: Option<u32>)
    ensures
        r == common_rate(rates@),
{
    if rates.len() == 0 {
        return Option::None;
    }
    let first = match rates[0] {
        Option::Some(v) => v,
        Option::None => {
            return Option::None;
        },
    };
    let mut i: usize = 1;
    while i < rates.len()
        invariant
            1 <= i <= rates@.len(),
            rates@[0] == Option::Some(first),
            forall|j: int| 0 <= j < i ==> #[trigger] rates@[j] == Option::Some(first),
        decreases rates@.len() - i,
    {
        match rates[i] {
            Option::Some(v) => {
                if v != first {
                    return Option::None;
                }
            },
            Option::None => {
                return Option::None;
            },
        }
        i = i + 1;
    }
    Option::Some(first)
}

/// The duration of one frame, in nanoseconds, for a refresh rate given in
/// millihertz.
pub fn frame_duration_from_millihertz(rate_millihertz: u32) -> (r: u64)
    requires
        rate_millihertz > 0,
    ensures
        r == 1_000_000_000_000u64 / (rate_millihertz as u64),
{
    1_000_000_000_000u64 / (rate_millihertz as u64)
}

} // verus!
