//! Per-event normalization for a mounted application.
//!
//! Each runtime event is translated for the application handler: timeout
//! firings are dispatched by their owner (user timeouts surface, repaint
//! requests update the frame bookkeeping, task delays are reported for
//! waking), window notifications get their standard pre-handling (redraw on
//! resize, exit on close request), and after every handled event a requested
//! frame is scheduled against the timeout queue.
//!
//! A ghost delivery history records exactly which translated event each
//! dispatch hands to the handler, so callers can reason about what the
//! application saw and in which order even though the handler itself is
//! opaque.

use vstd::prelude::*;
use crate::app::{AppHandler, AppTimeoutId, Event};
use crate::app::ctx::AppCtx;
use crate::runtime::{RuntimeEvent, WindowEventKind};
use crate::runtime::timer::{Timer, TimeoutResult, set_transition, cancel_transition};

verus! {

/// What handling one event asks the host glue to do.
#[derive(Debug, Clone, Copy, PartialEq, Eq)]
pub struct StateActions {
    /// Ask the window for a redraw.
    pub request_redraw: bool,
    /// The window moved: fetch the monitor's frame duration anew.
    pub refetch_monitor_rate: bool,
    /// A task-internal delay elapsed: wake the waker stored under this key.
    pub async_wake: Option<u64>,
}

/// No action requested.
pub open spec fn no_actions(a: StateActions) -> bool {
    &&& !a.request_redraw
    &&& !a.refetch_monitor_rate
    &&& a.async_wake is None
}

impl StateActions {
    pub fn empty() -> (r: StateActions)
        ensures
            no_actions(r),
    {
        StateActions { request_redraw: false, refetch_monitor_rate: false, async_wake: Option::None }
    }
}

/// The context fields the frame bookkeeping leaves untouched.
pub open spec fn ctx_same_except_frame_time(a: AppCtx, b: AppCtx) -> bool {
    &&& a.exit_spec() == b.exit_spec()
    &&& a.frame_request_spec() == b.frame_request_spec()
    &&& a.frame_timeout_spec() == b.frame_timeout_spec()
    &&& a.manual_frame_duration_spec() == b.manual_frame_duration_spec()
    &&& a.monitor_frame_duration_spec() == b.monitor_frame_duration_spec()
    &&& a.window_id_spec() == b.window_id_spec()
}

/// The event the handler is given for a runtime event, when one is
/// dispatched at all: lifecycle, task, device and user-timeout events
/// translate directly; a window event dispatches only for the state's own
/// window; internal timeout owners and the exit notification dispatch
/// nothing.
pub open spec fn dispatched_event<U>(window_id: u64, event: RuntimeEvent<U>) -> Option<Event<U>> {
    match event {
        RuntimeEvent::Resumed => Option::Some(Event::Resumed),
        RuntimeEvent::Suspended => Option::Some(Event::Suspended),
        RuntimeEvent::Exit => Option::None,
        RuntimeEvent::FutureReady { id } => Option::Some(Event::FutureReady(id)),
        RuntimeEvent::UserEvent(u) => Option::Some(Event::UserEvent(u)),
        RuntimeEvent::WindowEvent { window_id: wid, event: w } => if wid == window_id {
            Option::Some(Event::WindowEvent(w))
        } else {
            Option::None
        },
        RuntimeEvent::DeviceEvent { device_id, event: d } => Option::Some(
            Event::DeviceEvent { device_id, event: d },
        ),
        RuntimeEvent::Timeout { id: AppTimeoutId::User(id), instant } => Option::Some(
            Event::Timeout { instant, id },
        ),
        RuntimeEvent::Timeout { .. } => Option::None,
    }
}

/// The delivery history after one runtime event: extended by exactly the
/// dispatched event, or unchanged when nothing is dispatched.
pub open spec fn delivered_after<U>(
    window_id: u64,
    history: Seq<Event<U>>,
    event: RuntimeEvent<U>,
) -> Seq<Event<U>> {
    match dispatched_event(window_id, event) {
        Option::Some(e) => history.push(e),
        Option::None => history,
    }
}

/// A mounted application together with its context and frame bookkeeping.
pub struct AppState<App, U> {
    redraw_requested: bool,
    window_id: u64,
    pub app_ctx: AppCtx,
    app: App,
    delivered: Ghost<Seq<Event<U>>>,
}

impl<App, U> AppState<App, U> {
    /// The application's context.
    pub closed spec fn ctx_spec(self) -> AppCtx {
        self.app_ctx
    }

    /// Whether a redraw was requested and not yet observed.
    pub closed spec fn redraw_requested_spec(self) -> bool {
        self.redraw_requested
    }

    /// The key of the window this application is mounted on.
    pub closed spec fn window_id_spec(self) -> u64 {
        self.window_id
    }

    /// Every event handed to the application handler so far, in order.
    pub closed spec fn delivered_spec(self) -> Seq<Event<U>> {
        self.delivered@
    }

    pub fn new(app_ctx: AppCtx, app: App) -> (r: AppState<App, U>)
        ensures
            !r.redraw_requested_spec(),
            r.window_id_spec() == app_ctx.window_id_spec(),
            r.ctx_spec() == app_ctx,
            r.delivered_spec() == Seq::<Event<U>>::empty(),
    {
        let window_id = app_ctx.window_id();
        AppState {
            redraw_requested: false,
            window_id,
            app_ctx,
            app,
            delivered: Ghost(Seq::empty()),
        }
    }

    /// Whether the application asked the host to terminate its loop.
    pub fn exit_flag(&self) -> (r: bool)
        ensures
            r == self.ctx_spec().exit_spec(),
    {
        self.app_ctx.exit
    }

    /// Record the monitor-reported frame duration the host glue fetched,
    /// and return it.
    pub fn fetch_monitor_frame_duration(&mut self, monitor_frame_duration: Option<u64>) -> (r:
        Option<u64>)
        ensures
            r == monitor_frame_duration,
            final(self).ctx_spec().monitor_frame_duration_spec() == monitor_frame_duration,
            final(self).ctx_spec().manual_frame_duration_spec() == old(self).ctx_spec().manual_frame_duration_spec(),
            final(self).ctx_spec().frame_request_spec() == old(self).ctx_spec().frame_request_spec(),
            final(self).ctx_spec().frame_time_spec() == old(self).ctx_spec().frame_time_spec(),
            final(self).ctx_spec().frame_timeout_spec() == old(self).ctx_spec().frame_timeout_spec(),
            final(self).ctx_spec().exit_spec() == old(self).ctx_spec().exit_spec(),
            final(self).window_id_spec() == old(self).window_id_spec(),
            final(self).redraw_requested_spec() == old(self).redraw_requested_spec(),
            final(self).delivered_spec() == old(self).delivered_spec(),
    {
        self.app_ctx.fetch_monitor_frame_duration(monitor_frame_duration)
    }

    /// An internal repaint request fired: when it belongs to this window,
    /// adopt its instant as the frame time and ask for a redraw. Nothing is
    /// dispatched to the handler.
    pub fn frame_fired(&mut self, window_id: u64, instant: u64) -> (acts: StateActions)
        ensures
            acts.async_wake is None,
            !acts.refetch_monitor_rate,
            final(self).window_id_spec() == old(self).window_id_spec(),
            final(self).delivered_spec() == old(self).delivered_spec(),
            window_id == old(self).window_id_spec() ==> {
                &&& acts.request_redraw
                &&& final(self).redraw_requested_spec()
                &&& final(self).ctx_spec().frame_time_spec() == instant
                &&& ctx_same_except_frame_time(final(self).ctx_spec(), old(self).ctx_spec())
            },
            window_id != old(self).window_id_spec() ==> *final(self) == *old(self)
                && !acts.request_redraw,
    {
        if window_id == self.window_id {
            self.app_ctx.frame_time = instant;
            self.redraw_requested = true;
            StateActions {
                request_redraw: true,
                refetch_monitor_rate: false,
                async_wake: Option::None,
            }
        } else {
            StateActions::empty()
        }
    }

    /// After a handled event: when the application asked for a frame, either
    /// schedule the repaint request with the timeout queue (only moving an
    /// existing one earlier), redraw at once when the frame is already due,
    /// or — when the wake time was unrepresentable — cancel any pending
    /// repaint request instead. No frame request is ever left pending.
    fn after_event(&mut self, now: u64, timer: &mut Timer) -> (acts: StateActions)
        requires
            old(timer).valid(),
        ensures
            final(timer).valid(),
            !acts.refetch_monitor_rate,
            acts.async_wake is None,
            final(self).window_id_spec() == old(self).window_id_spec(),
            final(self).delivered_spec() == old(self).delivered_spec(),
            !final(self).ctx_spec().frame_request_spec(),
            !old(self).ctx_spec().frame_request_spec() ==> *final(self) == *old(self) && *final(timer)
                == *old(timer) && !acts.request_redraw,
            old(self).ctx_spec().frame_request_spec() && (old(self).ctx_spec().frame_timeout_spec() matches Option::Some(instant) && instant > now)
                ==> {
                &&& exists|r: TimeoutResult|
                    #[trigger] set_transition(
                        *old(timer),
                        *final(timer),
                        AppTimeoutId::FrameRequest(old(self).window_id_spec()),
                        old(self).ctx_spec().frame_timeout_spec()->0,
                        true,
                        r,
                    )
                &&& !acts.request_redraw
                &&& final(self).redraw_requested_spec() == old(self).redraw_requested_spec()
                &&& final(self).ctx_spec().frame_time_spec() == old(self).ctx_spec().frame_time_spec()
            },
            old(self).ctx_spec().frame_request_spec() && (old(self).ctx_spec().frame_timeout_spec() matches Option::Some(instant) && instant <= now)
                ==> {
                &&& *final(timer) == *old(timer)
                &&& acts.request_redraw
                &&& final(self).redraw_requested_spec()
                &&& final(self).ctx_spec().frame_time_spec() == now
            },
            old(self).ctx_spec().frame_request_spec() && old(self).ctx_spec().frame_timeout_spec() is None ==> {
                &&& exists|r: TimeoutResult|
                    #[trigger] cancel_transition(
                        *old(timer),
                        *final(timer),
                        AppTimeoutId::FrameRequest(old(self).window_id_spec()),
                        Option::None,
                        r,
                    )
                &&& !acts.request_redraw
            },
    {
        let mut acts = StateActions::empty();
        if self.app_ctx.frame_request {
            self.app_ctx.frame_request = false;
            match self.app_ctx.frame_timeout {
                Option::Some(instant) => {
                    if instant > now {
                        let r = timer.set_timeout_earlier(
                            AppTimeoutId::FrameRequest(self.window_id),
                            instant,
                        );
                        proof {
                            assert(set_transition(
                                *old(timer),
                                *timer,
                                AppTimeoutId::FrameRequest(old(self).window_id_spec()),
                                old(self).ctx_spec().frame_timeout_spec()->0,
                                true,
                                r,
                            ));
                        }
                    } else {
                        self.app_ctx.frame_time = now;
                        acts.request_redraw = true;
                        self.redraw_requested = true;
                    }
                },
                Option::None => {
                    let _ = timer.cancel_timeout(
                        &AppTimeoutId::FrameRequest(self.window_id),
                        Option::None,
                    );
                },
            }
        }
        acts
    }

    /// Translate one runtime event for the application handler and apply the
    /// standard pre- and post-handling. The delivery history is extended by
    /// exactly the dispatched event; an event for another window, an exit,
    /// or an internal timeout firing dispatches nothing.
    pub fn event(&mut self, event: RuntimeEvent<U>, now: u64, timer: &mut Timer) -> (acts:
        StateActions) where App: AppHandler<U>
        requires
            old(timer).valid(),
        ensures
            final(timer).valid(),
            final(self).window_id_spec() == old(self).window_id_spec(),
            final(self).delivered_spec() == delivered_after(
                old(self).window_id_spec(),
                old(self).delivered_spec(),
                event,
            ),
            (dispatched_event(old(self).window_id_spec(), event) is Some) ==> !final(self).ctx_spec().frame_request_spec(),
            acts.async_wake == match event {
                RuntimeEvent::Timeout { id: AppTimeoutId::Async(k), .. } => Option::Some(k),
                _ => Option::<u64>::None,
            },
            (event matches RuntimeEvent::Timeout { id: AppTimeoutId::Async(_), .. })
                ==> *final(self) == *old(self) && *final(timer) == *old(timer)
                && !acts.request_redraw && !acts.refetch_monitor_rate,
            acts.refetch_monitor_rate == (event matches RuntimeEvent::WindowEvent {
                window_id,
                event: WindowEventKind::Moved { .. },
            } && window_id == old(self).window_id_spec()),
            (event matches RuntimeEvent::WindowEvent { window_id, event: w } && window_id == old(self).window_id_spec() && (w is Resized || w is ScaleFactorChanged))
                ==> acts.request_redraw,
            (event matches RuntimeEvent::WindowEvent { window_id, event: w } && window_id != old(self).window_id_spec()) ==> *final(self) == *old(self) && *final(timer) == *old(timer)
                && no_actions(acts),
            (match event {
                RuntimeEvent::Timeout { id: AppTimeoutId::FrameRequest(w), instant } => {
                    if w == old(self).window_id_spec() {
                        &&& acts.request_redraw
                        &&& final(self).redraw_requested_spec()
                        &&& final(self).ctx_spec().frame_time_spec() == instant
                        &&& ctx_same_except_frame_time(final(self).ctx_spec(), old(self).ctx_spec())
                        &&& *final(timer) == *old(timer)
                    } else {
                        *final(self) == *old(self) && *final(timer) == *old(timer)
                            && !acts.request_redraw
                    }
                },
                _ => true,
            }),
            (event matches RuntimeEvent::Exit) ==> *final(self) == *old(self) && *final(timer)
                == *old(timer) && no_actions(acts),
    {
        match event {
            RuntimeEvent::Resumed => {
                let ev = Event::Resumed;
                self.delivered = Ghost(self.delivered@.push(ev));
                self.app.event(&mut self.app_ctx, timer, &ev);
                self.after_event(now, timer)
            },
            RuntimeEvent::Suspended => {
                let ev = Event::Suspended;
                self.delivered = Ghost(self.delivered@.push(ev));
                self.app.event(&mut self.app_ctx, timer, &ev);
                self.after_event(now, timer)
            },
            RuntimeEvent::FutureReady { id } => {
                let ev = Event::FutureReady(id);
                self.delivered = Ghost(self.delivered@.push(ev));
                self.app.event(&mut self.app_ctx, timer, &ev);
                self.after_event(now, timer)
            },
            RuntimeEvent::UserEvent(u) => {
                let ev = Event::UserEvent(u);
                self.delivered = Ghost(self.delivered@.push(ev));
                self.app.event(&mut self.app_ctx, timer, &ev);
                self.after_event(now, timer)
            },
            RuntimeEvent::DeviceEvent { device_id, event: d } => {
                let ev = Event::DeviceEvent { device_id, event: d };
                self.delivered = Ghost(self.delivered@.push(ev));
                self.app.event(&mut self.app_ctx, timer, &ev);
                self.after_event(now, timer)
            },
            RuntimeEvent::Timeout { id: tid, instant } => match tid {
                AppTimeoutId::User(id) => {
                    let ev = Event::Timeout { instant, id };
                    self.delivered = Ghost(self.delivered@.push(ev));
                    self.app.event(&mut self.app_ctx, timer, &ev);
                    self.after_event(now, timer)
                },
                AppTimeoutId::Async(k) => StateActions {
                    request_redraw: false,
                    refetch_monitor_rate: false,
                    async_wake: Option::Some(k),
                },
                AppTimeoutId::FrameRequest(w) => self.frame_fired(w, instant),
            },
            RuntimeEvent::WindowEvent { window_id, event: w } => {
                if window_id == self.window_id {
                    let mut acts = StateActions::empty();
                    match w {
                        WindowEventKind::RedrawRequested => {
                            if self.app_ctx.frame_timeout.is_none() || !self.redraw_requested {
                                self.app_ctx.frame_time = now;
                            }
                            self.redraw_requested = false;
                            self.app_ctx.frame_timeout = Option::None;
                        },
                        WindowEventKind::Resized { .. } => {
                            acts.request_redraw = true;
                        },
                        WindowEventKind::ScaleFactorChanged => {
                            acts.request_redraw = true;
                        },
                        WindowEventKind::Moved { .. } => {
                            acts.refetch_monitor_rate = true;
                        },
                        WindowEventKind::CloseRequested => {
                            self.app_ctx.exit = true;
                        },
                        _ => {},
                    }
                    let ev = Event::WindowEvent(w);
                    self.delivered = Ghost(self.delivered@.push(ev));
                    self.app.event(&mut self.app_ctx, timer, &ev);
                    let after = self.after_event(now, timer);
                    StateActions {
                        request_redraw: acts.request_redraw || after.request_redraw,
                        refetch_monitor_rate: acts.refetch_monitor_rate,
                        async_wake: Option::None,
                    }
                } else {
                    StateActions::empty()
                }
            },
            RuntimeEvent::Exit => StateActions::empty(),
        }
    }
}

} // verus!
