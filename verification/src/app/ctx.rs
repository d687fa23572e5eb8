//! Per-application context: the exit flag and the frame-pacing bookkeeping.
//!
//! The context carries plain values only; the window itself stays with the
//! host glue, which knows the context's window by its key.

use vstd::prelude::*;
use crate::app::AppTimeoutId;
use crate::runtime::timer::{
    Timer,
    TimeoutResult,
    set_transition,
    cancel_transition,
    has_id,
    instant_of_id,
};

verus! {

/// Frame duration assumed when neither a manual nor a monitor-reported
/// duration is known: one sixtieth of a second, in nanoseconds.
pub const STD_FRAME_DURATION: u64 = 1_000_000_000 / 60;

/// The frame duration that takes effect: a manual setting wins over the
/// monitor's, and a fixed default stands in when neither is known.
pub open spec fn effective_frame_duration(manual: Option<u64>, monitor: Option<u64>) -> u64 {
    match manual {
        Option::Some(d) => d,
        Option::None => match monitor {
            Option::Some(d) => d,
            Option::None => STD_FRAME_DURATION,
        },
    }
}

/// Application-facing context.
pub struct AppCtx {
    /// Set by the application (or by a close request) to ask the host to
    /// terminate its loop.
    pub exit: bool,
    pub frame_request: bool,
    pub frame_time: u64,
    pub frame_timeout: Option<u64>,
    pub manual_frame_duration: Option<u64>,
    pub monitor_frame_duration: Option<u64>,
    pub window_id: u64,
}

impl AppCtx {
    /// Whether the application asked the host to terminate its loop.
    pub open spec fn exit_spec(self) -> bool {
        self.exit
    }

    /// Whether a frame was requested since the last event was handled.
    pub open spec fn frame_request_spec(self) -> bool {
        self.frame_request
    }

    /// The instant the current frame is considered to have started.
    pub open spec fn frame_time_spec(self) -> u64 {
        self.frame_time
    }

    /// The instant at which the requested frame is due, when one is
    /// scheduled and representable.
    pub open spec fn frame_timeout_spec(self) -> Option<u64> {
        self.frame_timeout
    }

    pub open spec fn manual_frame_duration_spec(self) -> Option<u64> {
        self.manual_frame_duration
    }

    pub open spec fn monitor_frame_duration_spec(self) -> Option<u64> {
        self.monitor_frame_duration
    }

    /// The frame duration in effect.
    pub open spec fn frame_duration_spec(self) -> u64 {
        effective_frame_duration(
            self.manual_frame_duration_spec(),
            self.monitor_frame_duration_spec(),
        )
    }

    /// The key of the window this context belongs to.
    pub open spec fn window_id_spec(self) -> u64 {
        self.window_id
    }

    pub fn new(window_id: u64, now: u64, monitor_frame_duration: Option<u64>) -> (r: AppCtx)
        ensures
            !r.exit_spec(),
            !r.frame_request_spec(),
            r.frame_time_spec() == now,
            r.frame_timeout_spec() is None,
            r.manual_frame_duration_spec() is None,
            r.monitor_frame_duration_spec() == monitor_frame_duration,
            r.window_id_spec() == window_id,
    {
        AppCtx {
            exit: false,
            frame_request: false,
            frame_time: now,
            frame_timeout: Option::None,
            manual_frame_duration: Option::None,
            monitor_frame_duration,
            window_id,
        }
    }

    pub fn window_id(&self) -> (r: u64)
        ensures
            r == self.window_id_spec(),
    {
        self.window_id
    }

    /// Ask for a frame. The frame becomes due one frame duration after the
    /// current frame time; a wake time out of range means the frame cannot
    /// be scheduled.
    pub fn request_frame(&mut self)
        ensures
            final(self).frame_request_spec(),
            final(self).frame_timeout_spec() == (if old(self).frame_time_spec() + old(self).frame_duration_spec() <= u64::MAX {
                Option::Some(
                    (old(self).frame_time_spec() + old(self).frame_duration_spec()) as u64,
                )
            } else {
                Option::<u64>::None
            }),
            final(self).frame_time_spec() == old(self).frame_time_spec(),
            final(self).exit_spec() == old(self).exit_spec(),
            final(self).manual_frame_duration_spec() == old(self).manual_frame_duration_spec(),
            final(self).monitor_frame_duration_spec() == old(self).monitor_frame_duration_spec(),
            final(self).window_id_spec() == old(self).window_id_spec(),
    {
        self.frame_request = true;
        let duration = self.frame_duration();
        self.frame_timeout = self.frame_time.checked_add(duration);
    }

    /// The instant the current frame is considered to have started.
    pub fn frame_time(&self) -> (r: u64)
        ensures
            r == self.frame_time_spec(),
    {
        self.frame_time
    }

    /// Align the frame time with an externally chosen instant, but never
    /// further ahead than one frame duration from now.
    pub fn sync_frame_time(&mut self, instant: u64, now: u64)
        requires
            now + old(self).frame_duration_spec() <= u64::MAX,
        ensures
            final(self).frame_time_spec() == (if instant <= now + old(self).frame_duration_spec() {
                instant
            } else {
                (now + old(self).frame_duration_spec()) as u64
            }),
            final(self).frame_request_spec() == old(self).frame_request_spec(),
            final(self).frame_timeout_spec() == old(self).frame_timeout_spec(),
            final(self).exit_spec() == old(self).exit_spec(),
            final(self).manual_frame_duration_spec() == old(self).manual_frame_duration_spec(),
            final(self).monitor_frame_duration_spec() == old(self).monitor_frame_duration_spec(),
            final(self).window_id_spec() == old(self).window_id_spec(),
    {
        let duration = self.frame_duration();
        let bound = now + duration;
        self.frame_time = if instant <= bound {
            instant
        } else {
            bound
        };
    }

    /// Set or clear the manual frame duration.
    pub fn set_frame_duration(&mut self, manual_duration: Option<u64>)
        ensures
            final(self).manual_frame_duration_spec() == manual_duration,
            final(self).monitor_frame_duration_spec() == old(self).monitor_frame_duration_spec(),
            final(self).frame_request_spec() == old(self).frame_request_spec(),
            final(self).frame_time_spec() == old(self).frame_time_spec(),
            final(self).frame_timeout_spec() == old(self).frame_timeout_spec(),
            final(self).exit_spec() == old(self).exit_spec(),
            final(self).window_id_spec() == old(self).window_id_spec(),
    {
        self.manual_frame_duration = manual_duration;
    }

    /// Record the monitor-reported frame duration the host glue fetched,
    /// and return it.
    pub fn fetch_monitor_frame_duration(&mut self, monitor_frame_duration: Option<u64>) -> (r:
        Option<u64>)
        ensures
            r == monitor_frame_duration,
            final(self).monitor_frame_duration_spec() == monitor_frame_duration,
            final(self).manual_frame_duration_spec() == old(self).manual_frame_duration_spec(),
            final(self).frame_request_spec() == old(self).frame_request_spec(),
            final(self).frame_time_spec() == old(self).frame_time_spec(),
            final(self).frame_timeout_spec() == old(self).frame_timeout_spec(),
            final(self).exit_spec() == old(self).exit_spec(),
            final(self).window_id_spec() == old(self).window_id_spec(),
    {
        self.monitor_frame_duration = monitor_frame_duration;
        self.monitor_frame_duration
    }

    pub fn manual_frame_duration(&self) -> (r: Option<u64>)
        ensures
            r == self.manual_frame_duration_spec(),
    {
        self.manual_frame_duration
    }

    pub fn monitor_frame_duration(&self) -> (r: Option<u64>)
        ensures
            r == self.monitor_frame_duration_spec(),
    {
        self.monitor_frame_duration
    }

    /// Wake time of the pending user timeout under this key, if any.
    pub fn get_timeout(&self, timer: &Timer, id: u64) -> (r: Option<u64>)
        requires
            timer.valid(),
        ensures
            r is Some <==> has_id(timer.entries(), AppTimeoutId::User(id)),
            r matches Some(t) ==> t == instant_of_id(timer.entries(), AppTimeoutId::User(id)),
    {
        timer.get_timeout(&AppTimeoutId::User(id))
    }

    /// Install a user timeout, replacing any pending one under this key.
    pub fn set_timeout(&self, timer: &mut Timer, id: u64, instant: u64) -> (r: TimeoutResult)
        requires
            old(timer).valid(),
        ensures
            final(timer).valid(),
            set_transition(*old(timer), *final(timer), AppTimeoutId::User(id), instant, false, r),
    {
        timer.set_timeout(AppTimeoutId::User(id), instant)
    }

    /// Install a user timeout unless an earlier one is already pending
    /// under this key.
    pub fn set_timeout_earlier(&self, timer: &mut Timer, id: u64, instant: u64) -> (r:
        TimeoutResult)
        requires
            old(timer).valid(),
        ensures
            final(timer).valid(),
            set_transition(*old(timer), *final(timer), AppTimeoutId::User(id), instant, true, r),
    {
        timer.set_timeout_earlier(AppTimeoutId::User(id), instant)
    }

    /// Install a user timeout `duration` nanoseconds from `now`; an
    /// unrepresentable wake time cancels any pending entry instead.
    pub fn set_timeout_wait(&self, timer: &mut Timer, id: u64, duration: u64, now: u64) -> (r:
        TimeoutResult)
        requires
            old(timer).valid(),
        ensures
            final(timer).valid(),
            now + duration <= u64::MAX ==> set_transition(
                *old(timer),
                *final(timer),
                AppTimeoutId::User(id),
                (now + duration) as u64,
                false,
                r,
            ),
            now + duration > u64::MAX ==> cancel_transition(
                *old(timer),
                *final(timer),
                AppTimeoutId::User(id),
                Option::None,
                r,
            ),
    {
        timer.set_timeout_wait(AppTimeoutId::User(id), duration, now)
    }

    /// Like `set_timeout_wait`, but keeps an existing earlier entry.
    pub fn set_timeout_wait_earlier(
        &self,
        timer: &mut Timer,
        id: u64,
        duration: u64,
        now: u64,
    ) -> (r: TimeoutResult)
        requires
            old(timer).valid(),
        ensures
            final(timer).valid(),
            now + duration <= u64::MAX ==> set_transition(
                *old(timer),
                *final(timer),
                AppTimeoutId::User(id),
                (now + duration) as u64,
                true,
                r,
            ),
            now + duration > u64::MAX ==> {
                &&& final(timer).entries() == old(timer).entries()
                &&& final(timer).pending_update() == old(timer).pending_update()
                &&& final(timer).cap_spec() == old(timer).cap_spec()
                &&& r == if has_id(old(timer).entries(), AppTimeoutId::User(id)) {
                    TimeoutResult::FoundEarlier(
                        instant_of_id(old(timer).entries(), AppTimeoutId::User(id)),
                    )
                } else {
                    TimeoutResult::Missing
                }
            },
    {
        timer.set_timeout_wait_earlier(AppTimeoutId::User(id), duration, now)
    }

    /// Remove the pending user timeout under this key; with a threshold, an
    /// entry at or before it is treated as too late to cancel.
    pub fn cancel_timeout(&self, timer: &mut Timer, id: u64, if_later: Option<u64>) -> (r:
        TimeoutResult)
        requires
            old(timer).valid(),
        ensures
            final(timer).valid(),
            cancel_transition(*old(timer), *final(timer), AppTimeoutId::User(id), if_later, r),
    {
        timer.cancel_timeout(&AppTimeoutId::User(id), if_later)
    }

    /// The frame duration in effect.
    pub fn frame_duration(&self) -> (r: u64)
        ensures
            r == self.frame_duration_spec(),
    {
        match self.manual_frame_duration {
            Option::Some(d) => d,
            Option::None => match self.monitor_frame_duration {
                Option::Some(d) => d,
                Option::None => STD_FRAME_DURATION,
            },
        }
    }
}

} // verus!
