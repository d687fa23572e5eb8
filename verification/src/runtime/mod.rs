//! Host-facing runtime: the unified event model, the executor for suspended
//! tasks, and the per-notification routing that feeds application code.
//!
//! The router receives one host notification at a time and dispatches it:
//! lifecycle notifications pass through, a wake notification checks the
//! named task out for polling, and a "scheduled time reached" notification
//! pops the timeout queue and translates the firing by its owner. After
//! every notification the host glue consults the timer's wait-policy update
//! exactly once and applies it to the host.

pub mod futures;
pub mod timer;

use vstd::prelude::*;
use crate::app::AppTimeoutId;
use crate::app::futures::{has_key, task_of_key, idx_of_key};
use crate::init::WaitMode;
use self::futures::FutureRuntime;
use self::timer::{Timer, Timeout, pop_transition};

verus! {

/// Plain model of a window notification. Only the variants the scheduling
/// core inspects are distinguished; everything else passes through as
/// `Other`.
#[derive(Debug, Clone, Copy, PartialEq, Eq, Hash, Structural)]
pub enum WindowEventKind {
    Resized { width: u32, height: u32 },
    Moved { x: i32, y: i32 },
    CloseRequested,
    Focused(bool),
    KeyPress(u32),
    RedrawRequested,
    ScaleFactorChanged,
    Other(u64),
}

/// One notification from the host, normalized to plain values.
#[derive(Debug, Clone, PartialEq, Eq, Hash)]
pub enum HostEvent<U> {
    /// A new callback cycle begins; set when the cause is that a scheduled
    /// wake time was reached.
    NewEvents { resume_time_reached: bool },
    Resumed,
    Suspended,
    Exiting,
    WindowEvent { window_id: u64, event: WindowEventKind },
    DeviceEvent { device_id: u64, event: u64 },
    /// A wake notification for the task with this identifier, delivered
    /// through the host's injection channel.
    WakeFuture(u64),
    UserEvent(U),
}

/// The unified event stream produced by the router.
#[derive(Debug, Clone, PartialEq, Eq, Hash)]
pub enum RuntimeEvent<U> {
    Resumed,
    Suspended,
    Exit,
    FutureReady { id: u64 },
    UserEvent(U),
    WindowEvent { window_id: u64, event: WindowEventKind },
    DeviceEvent { device_id: u64, event: u64 },
    Timeout { id: AppTimeoutId, instant: u64 },
}

/// What routing one host notification asks the host glue to do.
#[derive(Debug)]
pub enum Routed<T, U> {
    /// Deliver this event to the application layer.
    Deliver(RuntimeEvent<U>),
    /// Drive the checked-out task once, then report the poll's outcome.
    Drive { id: u64, task: T },
    /// A wake arrived for a task no longer in the table: a logged anomaly,
    /// never fatal.
    StaleWake(u64),
    /// A task-internal delay elapsed: wake the waker stored under this key.
    AsyncWake(u64),
    /// An internal repaint request fired for this window.
    FrameFired { window_id: u64, instant: u64 },
    /// Nothing to do.
    Idle,
}

/// The state the router owns: the timeout queue and the executor.
pub struct RuntimeCtx<T> {
    pub timer: Timer,
    pub futures: FutureRuntime<T>,
}

impl<T> RuntimeCtx<T> {
    pub open spec fn wf(self) -> bool {
        &&& self.timer.valid()
        &&& self.futures.ok()
    }

    pub fn new() -> (r: RuntimeCtx<T>)
        ensures
            r.wf(),
            r.timer.entries() == Seq::<Timeout>::empty(),
            r.timer.pending_update() is None,
            r.futures.table() == Seq::<(u64, T)>::empty(),
            r.futures.futures_spec().next_id_spec() == 0,
            r.futures.checked_out_spec() is None,
            r.futures.wakes() == Seq::<u64>::empty(),
    {
        RuntimeCtx { timer: Timer::new(), futures: FutureRuntime::new() }
    }

    /// Dispatch one host notification. Lifecycle and passthrough
    /// notifications become events; a wake notification checks the task out
    /// for driving; a reached wake time pops the queue and is translated by
    /// its owner: user timeouts surface as events, repaint requests and
    /// task delays are consumed internally.
    pub fn route<U>(&mut self, event: HostEvent<U>, now: u64) -> (r: Routed<T, U>)
        requires
            old(self).wf(),
            old(self).futures.checked_out_spec() is None,
        ensures
            final(self).wf(),
            match event {
                HostEvent::Resumed => r matches Routed::Deliver(RuntimeEvent::Resumed)
                    && *final(self) == *old(self),
                HostEvent::Suspended => r matches Routed::Deliver(RuntimeEvent::Suspended)
                    && *final(self) == *old(self),
                HostEvent::Exiting => r matches Routed::Deliver(RuntimeEvent::Exit) && *final(self)
                    == *old(self),
                HostEvent::WindowEvent { window_id, event: w } => r matches Routed::Deliver(
                    RuntimeEvent::WindowEvent { window_id: wid, event: ww },
                ) && wid == window_id && ww == w && *final(self) == *old(self),
                HostEvent::DeviceEvent { device_id, event: d } => r matches Routed::Deliver(
                    RuntimeEvent::DeviceEvent { device_id: did, event: dd },
                ) && did == device_id && dd == d && *final(self) == *old(self),
                HostEvent::UserEvent(u) => r matches Routed::Deliver(RuntimeEvent::UserEvent(uu))
                    && uu == u && *final(self) == *old(self),
                HostEvent::NewEvents { resume_time_reached } => {
                    if !resume_time_reached {
                        r is Idle && *final(self) == *old(self)
                    } else {
                        &&& final(self).futures == old(self).futures
                        &&& exists|popped: Option<Timeout>|
                            {
                                &&& #[trigger] pop_transition(
                                    old(self).timer,
                                    final(self).timer,
                                    now,
                                    popped,
                                )
                                &&& match popped {
                                    Option::None => r is Idle,
                                    Option::Some(t) => match t.id {
                                        AppTimeoutId::User(_) => r matches Routed::Deliver(
                                            RuntimeEvent::Timeout { id, instant },
                                        ) && id == t.id && instant == t.instant,
                                        AppTimeoutId::Async(k) => r matches Routed::AsyncWake(kk)
                                            && kk == k,
                                        AppTimeoutId::FrameRequest(w) => r matches
                                            Routed::FrameFired { window_id, instant } && window_id
                                            == w && instant == t.instant,
                                    },
                                }
                            }
                    }
                },
                HostEvent::WakeFuture(id) => {
                    &&& final(self).timer == old(self).timer
                    &&& final(self).futures.wakes() == old(self).futures.wakes()
                    &&& final(self).futures.futures_spec().next_id_spec() == old(
                        self,
                    ).futures.futures_spec().next_id_spec()
                    &&& if has_key(old(self).futures.table(), id) {
                        &&& r matches Routed::Drive { id: rid, task } && rid == id && task
                            == task_of_key(old(self).futures.table(), id)
                        &&& final(self).futures.table() == old(self).futures.table().remove(
                            idx_of_key(old(self).futures.table(), id),
                        )
                        &&& final(self).futures.checked_out_spec() == Option::Some(id)
                    } else {
                        &&& r matches Routed::StaleWake(sid) && sid == id
                        &&& final(self).futures.table() == old(self).futures.table()
                        &&& final(self).futures.checked_out_spec() is None
                    }
                },
            },
    {
        match event {
            HostEvent::Resumed => Routed::Deliver(RuntimeEvent::Resumed),
            HostEvent::Suspended => Routed::Deliver(RuntimeEvent::Suspended),
            HostEvent::Exiting => Routed::Deliver(RuntimeEvent::Exit),
            HostEvent::WindowEvent { window_id, event } => Routed::Deliver(
                RuntimeEvent::WindowEvent { window_id, event },
            ),
            HostEvent::DeviceEvent { device_id, event } => Routed::Deliver(
                RuntimeEvent::DeviceEvent { device_id, event },
            ),
            HostEvent::UserEvent(u) => Routed::Deliver(RuntimeEvent::UserEvent(u)),
            HostEvent::NewEvents { resume_time_reached } => {
                if resume_time_reached {
                    match self.timer.pop_timeout(now) {
                        Option::Some(t) => match t.id {
                            AppTimeoutId::User(_) => Routed::Deliver(
                                RuntimeEvent::Timeout { id: t.id, instant: t.instant },
                            ),
                            AppTimeoutId::Async(k) => Routed::AsyncWake(k),
                            AppTimeoutId::FrameRequest(w) => Routed::FrameFired {
                                window_id: w,
                                instant: t.instant,
                            },
                        },
                        Option::None => Routed::Idle,
                    }
                } else {
                    Routed::Idle
                }
            },
            HostEvent::WakeFuture(id) => {
                match self.futures.poll_take(id) {
                    Option::Some(task) => Routed::Drive { id, task },
                    Option::None => Routed::StaleWake(id),
                }
            },
        }
    }

    /// Report that a driven task completed; the event announcing its output
    /// is delivered to the application layer.
    pub fn task_ready<U>(&mut self, id: u64) -> (ev: RuntimeEvent<U>)
        requires
            old(self).wf(),
            old(self).futures.checked_out_spec() == Option::Some(id),
        ensures
            final(self).wf(),
            ev matches RuntimeEvent::FutureReady { id: rid } && rid == id,
            final(self).timer == old(self).timer,
            final(self).futures.table() == old(self).futures.table(),
            final(self).futures.futures_spec().next_id_spec() == old(
                self,
            ).futures.futures_spec().next_id_spec(),
            final(self).futures.wakes() == old(self).futures.wakes(),
            final(self).futures.checked_out_spec() is None,
    {
        self.futures.poll_ready(id);
        RuntimeEvent::FutureReady { id }
    }

    /// Report that a driven task is still pending; it returns to the table
    /// under its identifier and nothing is delivered.
    pub fn task_pending(&mut self, id: u64, task: T)
        requires
            old(self).wf(),
            old(self).futures.checked_out_spec() == Option::Some(id),
        ensures
            final(self).wf(),
            final(self).timer == old(self).timer,
            final(self).futures.table() == old(self).futures.table().push((id, task)),
            final(self).futures.futures_spec().next_id_spec() == old(
                self,
            ).futures.futures_spec().next_id_spec(),
            final(self).futures.wakes() == old(self).futures.wakes(),
            final(self).futures.checked_out_spec() is None,
    {
        self.futures.poll_pending(id, task);
    }

    /// One-shot consumption of the wait-policy update, to be applied to the
    /// host after every processed notification: `None` when the front of the
    /// queue did not change, otherwise the new wait mode.
    pub fn take_wait_policy_update(&mut self) -> (r: Option<WaitMode>)
        requires
            old(self).wf(),
        ensures
            final(self).wf(),
            final(self).futures == old(self).futures,
            final(self).timer.entries() == old(self).timer.entries(),
            final(self).timer.cap_spec() == old(self).timer.cap_spec(),
            final(self).timer.pending_update() is None,
            r == match old(self).timer.pending_update() {
                Option::None => Option::<WaitMode>::None,
                Option::Some(Option::None) => Option::Some(WaitMode::Wait),
                Option::Some(Option::Some(t)) => Option::Some(WaitMode::WaitUntil(t)),
            },
    {
        match self.timer.take_set_instant() {
            Option::None => Option::None,
            Option::Some(Option::None) => Option::Some(WaitMode::Wait),
            Option::Some(Option::Some(t)) => Option::Some(WaitMode::WaitUntil(t)),
        }
    }
}

} // verus!
