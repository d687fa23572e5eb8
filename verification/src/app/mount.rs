//! Startup sequencing: from "no window yet" to a fully mounted application.
//!
//! Initialization runs as a suspendable task, so events seen before it
//! completes must be neither dropped nor reordered. The sequencer buffers
//! every event until the constructed application state arrives, then
//! replays the buffer through it in arrival order, stopping at once when a
//! replayed event flags an exit. An exiting notification forces the
//! terminal discarding state from anywhere.
//!
//! The outside steps — creating the window, spawning the construction task,
//! receiving the constructed state — are the host glue's; it reports each
//! back through the corresponding method, on the single control thread.

use vstd::prelude::*;
use crate::app::AppHandler;
use crate::app::state::{AppState, StateActions, no_actions, delivered_after};
use crate::app::Event;
use crate::runtime::{RuntimeEvent, WindowEventKind};
use crate::runtime::timer::Timer;

verus! {

/// The sequencing phase.
#[derive(Debug, Clone, Copy, PartialEq, Eq, Hash, Structural)]
pub enum MountState {
    /// Before anything: buffer events; a resume triggers window creation.
    Init,
    /// The window exists: buffer events; its first size confirmation
    /// triggers the construction task.
    Window,
    /// The construction task runs: buffer events until it completes.
    Mounting,
    /// Steady state: events go straight to the application.
    Mounted,
    /// The host is exiting: discard everything.
    Dropped,
}

/// What the sequencer asks the host glue to do next.
#[derive(Debug, Clone, Copy, PartialEq, Eq)]
pub enum MountAction {
    /// Nothing: the event was buffered, discarded, or needed no outside
    /// work.
    Idle,
    /// Create the window, then report its key through `window_created`.
    CreateWindow,
    /// Spawn the construction task with the executor, then report its
    /// identifier through `init_spawned`.
    SpawnInit,
    /// The construction task completed: hand the constructed state to
    /// `complete`.
    CompleteMount,
    /// The event went to the mounted application, which asks for these
    /// window actions.
    App(StateActions),
}

/// How completing the mount went.
#[derive(Debug, Clone, Copy, PartialEq, Eq, Hash, Structural)]
pub enum MountOutcome {
    /// Every buffered event was replayed; the application is mounted.
    Completed,
    /// A replayed event flagged an exit: replay stopped at once and the
    /// host should terminate its loop.
    ExitDuringReplay,
    /// The construction task completed without yielding a state — a
    /// recoverable anomaly; everything buffered is discarded.
    Failed,
}

/// The startup sequencer.
pub struct AppMount<App, U> {
    state: MountState,
    event_queue: Vec<RuntimeEvent<U>>,
    window_id: u64,
    task_id: u64,
    app_state: Option<AppState<App, U>>,
}

/// The delivery history after replaying a buffer in arrival order.
pub open spec fn replayed<U>(
    window_id: u64,
    history: Seq<Event<U>>,
    queue: Seq<RuntimeEvent<U>>,
) -> Seq<Event<U>>
    decreases queue.len(),
{
    if queue.len() == 0 {
        history
    } else {
        replayed(window_id, delivered_after(window_id, history, queue[0]), queue.drop_first())
    }
}

/// Replay completeness law: replaying a buffer appends to the delivery
/// history exactly the translations of the buffered events, in arrival
/// order, whatever history was already accumulated — so a completed mount
/// delivers every buffered event's translation once and loses, duplicates
/// and reorders nothing.
pub proof fn lemma_replay_completeness<U>(
    window_id: u64,
    history: Seq<Event<U>>,
    queue: Seq<RuntimeEvent<U>>,
)
    ensures
        replayed(window_id, history, queue) == history + replayed(
            window_id,
            Seq::<Event<U>>::empty(),
            queue,
        ),
    decreases queue.len(),
{
    if queue.len() == 0 {
        assert(history + Seq::<Event<U>>::empty() =~= history);
    } else {
        let h1 = delivered_after(window_id, history, queue[0]);
        let e1 = delivered_after(window_id, Seq::<Event<U>>::empty(), queue[0]);
        lemma_replay_completeness(window_id, h1, queue.drop_first());
        lemma_replay_completeness(window_id, e1, queue.drop_first());
        assert(h1 =~= history + e1);
        let rest = replayed(window_id, Seq::<Event<U>>::empty(), queue.drop_first());
        assert((history + e1) + rest =~= history + (e1 + rest));
    }
}

/// Replaying one more event extends the history of the shorter replay.
proof fn lemma_replayed_snoc<U>(
    window_id: u64,
    history: Seq<Event<U>>,
    queue: Seq<RuntimeEvent<U>>,
    event: RuntimeEvent<U>,
)
    ensures
        replayed(window_id, history, queue.push(event)) == delivered_after(
            window_id,
            replayed(window_id, history, queue),
            event,
        ),
    decreases queue.len(),
{
    let qe = queue.push(event);
    if queue.len() == 0 {
        assert(qe[0] == event);
        assert(qe.drop_first() =~= queue);
        assert(replayed(window_id, history, qe) == replayed(
            window_id,
            delivered_after(window_id, history, event),
            qe.drop_first(),
        ));
        assert(replayed(window_id, delivered_after(window_id, history, event), queue)
            == delivered_after(window_id, history, event));
        assert(replayed(window_id, history, queue) == history);
    } else {
        assert(qe[0] == queue[0]);
        assert(qe.drop_first() =~= queue.drop_first().push(event));
        assert(replayed(window_id, history, qe) == replayed(
            window_id,
            delivered_after(window_id, history, queue[0]),
            queue.drop_first().push(event),
        ));
        lemma_replayed_snoc(
            window_id,
            delivered_after(window_id, history, queue[0]),
            queue.drop_first(),
            event,
        );
        assert(replayed(window_id, history, queue) == replayed(
            window_id,
            delivered_after(window_id, history, queue[0]),
            queue.drop_first(),
        ));
    }
}

impl<App, U> AppMount<App, U> {
    /// The sequencing phase.
    pub closed spec fn state_spec(self) -> MountState {
        self.state
    }

    /// The buffered, not yet delivered events, oldest first.
    pub closed spec fn queue_spec(self) -> Seq<RuntimeEvent<U>> {
        self.event_queue@
    }

    /// The key of the created window (meaningful from `Window` on).
    pub closed spec fn window_id_spec(self) -> u64 {
        self.window_id
    }

    /// The construction task's identifier (meaningful in `Mounting`).
    pub closed spec fn task_id_spec(self) -> u64 {
        self.task_id
    }

    /// The mounted application state, once it exists.
    pub closed spec fn app_state_spec(self) -> Option<AppState<App, U>> {
        self.app_state
    }

    /// The application state exists exactly in the mounted phase.
    pub open spec fn inv(self) -> bool {
        self.app_state_spec() is Some <==> self.state_spec() is Mounted
    }

    /// Begin the mount sequence.
    pub fn mount() -> (r: AppMount<App, U>)
        ensures
            r.inv(),
            r.state_spec() is Init,
            r.queue_spec() == Seq::<RuntimeEvent<U>>::empty(),
    {
        AppMount {
            state: MountState::Init,
            event_queue: Vec::new(),
            window_id: 0,
            task_id: 0,
            app_state: Option::None,
        }
    }

    /// The sequencing phase.
    pub fn state(&self) -> (r: MountState)
        ensures
            r == self.state_spec(),
    {
        self.state
    }

    /// Whether the mounted application asked the host to terminate its
    /// loop.
    pub fn exit_requested(&self) -> (r: bool)
        ensures
            r == match self.app_state_spec() {
                Option::Some(st) => st.ctx_spec().exit_spec(),
                Option::None => false,
            },
    {
        match self.app_state.as_ref() {
            Option::Some(st) => st.exit_flag(),
            Option::None => false,
        }
    }

    /// The host reports the created window; awaited after `CreateWindow`.
    pub fn window_created(&mut self, window_id: u64)
        requires
            old(self).inv(),
            old(self).state_spec() is Init,
        ensures
            final(self).inv(),
            final(self).state_spec() is Window,
            final(self).window_id_spec() == window_id,
            final(self).queue_spec() == old(self).queue_spec(),
            final(self).app_state_spec() == old(self).app_state_spec(),
    {
        self.state = MountState::Window;
        self.window_id = window_id;
    }

    /// The host reports the spawned construction task; awaited after
    /// `SpawnInit`.
    pub fn init_spawned(&mut self, task_id: u64)
        requires
            old(self).inv(),
            old(self).state_spec() is Window,
        ensures
            final(self).inv(),
            final(self).state_spec() is Mounting,
            final(self).task_id_spec() == task_id,
            final(self).window_id_spec() == old(self).window_id_spec(),
            final(self).queue_spec() == old(self).queue_spec(),
            final(self).app_state_spec() == old(self).app_state_spec(),
    {
        self.state = MountState::Mounting;
        self.task_id = task_id;
    }

    /// Feed one runtime event through the sequencer.
    pub fn event(&mut self, event: RuntimeEvent<U>, now: u64, timer: &mut Timer) -> (act:
        MountAction) where App: AppHandler<U>
        requires
            old(self).inv(),
            old(timer).valid(),
        ensures
            final(self).inv(),
            final(timer).valid(),
            final(self).window_id_spec() == old(self).window_id_spec(),
            final(self).task_id_spec() == old(self).task_id_spec(),
            (event matches RuntimeEvent::Exit) ==> final(self).state_spec() is Dropped && final(self).queue_spec() == Seq::<RuntimeEvent<U>>::empty() && act == MountAction::Idle,
            !(event matches RuntimeEvent::Exit) && !(old(self).state_spec() is Mounted)
                ==> final(self).app_state_spec() == old(self).app_state_spec(),
            !(event matches RuntimeEvent::Exit) ==> final(self).state_spec()
                == old(self).state_spec(),
            !(event matches RuntimeEvent::Exit) && (old(self).state_spec() is Init || old(self).state_spec() is Window) ==> final(self).queue_spec() == old(self).queue_spec().push(
                event,
            ) && *final(timer) == *old(timer),
            !(event matches RuntimeEvent::Exit) && old(self).state_spec() is Init ==> act == (
            if (event matches RuntimeEvent::Resumed) {
                MountAction::CreateWindow
            } else {
                MountAction::Idle
            }),
            !(event matches RuntimeEvent::Exit) && old(self).state_spec() is Window ==> act == (
            if (event matches RuntimeEvent::WindowEvent {
                window_id,
                event: WindowEventKind::Resized { .. },
            } && window_id == old(self).window_id_spec()) {
                MountAction::SpawnInit
            } else {
                MountAction::Idle
            }),
            !(event matches RuntimeEvent::Exit) && old(self).state_spec() is Mounting ==> (if (
            event matches RuntimeEvent::FutureReady { id } && id == old(self).task_id_spec()) {
                act == MountAction::CompleteMount && final(self).queue_spec() == old(self).queue_spec() && *final(timer) == *old(timer)
            } else {
                act == MountAction::Idle && final(self).queue_spec() == old(self).queue_spec().push(event) && *final(timer) == *old(timer)
            }),
            !(event matches RuntimeEvent::Exit) && old(self).state_spec() is Dropped ==> act
                == MountAction::Idle && *final(self) == *old(self) && *final(timer) == *old(timer),
            !(event matches RuntimeEvent::Exit) && old(self).state_spec() is Mounted ==> {
                &&& act matches MountAction::App(_)
                &&& final(self).queue_spec() == old(self).queue_spec()
                &&& old(self).app_state_spec() is Some
                &&& final(self).app_state_spec() is Some
                &&& ({
                    let st0 = old(self).app_state_spec()->0;
                    let st1 = final(self).app_state_spec()->0;
                    &&& st1.window_id_spec() == st0.window_id_spec()
                    &&& st1.delivered_spec() == delivered_after(
                        st0.window_id_spec(),
                        st0.delivered_spec(),
                        event,
                    )
                })
            },
    {
        if matches!(event, RuntimeEvent::Exit) {
            self.state = MountState::Dropped;
            self.app_state = Option::None;
            self.event_queue.clear();
            return MountAction::Idle;
        }
        match self.state {
            MountState::Mounted => {
                match self.app_state.take() {
                    Option::Some(mut st) => {
                        let acts = st.event(event, now, timer);
                        self.app_state = Option::Some(st);
                        MountAction::App(acts)
                    },
                    Option::None => MountAction::Idle,
                }
            },
            MountState::Init => {
                let create = matches!(event, RuntimeEvent::Resumed);
                self.event_queue.push(event);
                if create {
                    MountAction::CreateWindow
                } else {
                    MountAction::Idle
                }
            },
            MountState::Window => {
                let spawn_init = match &event {
                    RuntimeEvent::WindowEvent {
                        window_id,
                        event: WindowEventKind::Resized { .. },
                    } => *window_id == self.window_id,
                    _ => false,
                };
                self.event_queue.push(event);
                if spawn_init {
                    MountAction::SpawnInit
                } else {
                    MountAction::Idle
                }
            },
            MountState::Mounting => {
                let ready = match &event {
                    RuntimeEvent::FutureReady { id } => *id == self.task_id,
                    _ => false,
                };
                if ready {
                    MountAction::CompleteMount
                } else {
                    self.event_queue.push(event);
                    MountAction::Idle
                }
            },
            MountState::Dropped => MountAction::Idle,
        }
    }

    /// Forward an internal repaint firing to the mounted application. In any
    /// other phase it is ignored: no repaint request can be pending before
    /// the application exists.
    pub fn frame_fired(&mut self, window_id: u64, instant: u64) -> (acts: StateActions)
        requires
            old(self).inv(),
        ensures
            final(self).inv(),
            final(self).state_spec() == old(self).state_spec(),
            final(self).queue_spec() == old(self).queue_spec(),
            final(self).window_id_spec() == old(self).window_id_spec(),
            final(self).task_id_spec() == old(self).task_id_spec(),
            acts.async_wake is None,
            !acts.refetch_monitor_rate,
            old(self).app_state_spec() is None ==> *final(self) == *old(self) && no_actions(acts),
            old(self).app_state_spec() is Some ==> final(self).app_state_spec() is Some && ({
                let st0 = old(self).app_state_spec()->0;
                let st1 = final(self).app_state_spec()->0;
                &&& st1.window_id_spec() == st0.window_id_spec()
                &&& st1.delivered_spec() == st0.delivered_spec()
            }),
    {
        match self.app_state.take() {
            Option::Some(mut st) => {
                let acts = st.frame_fired(window_id, instant);
                self.app_state = Option::Some(st);
                acts
            },
            Option::None => StateActions::empty(),
        }
    }

    /// Record the monitor-reported frame duration the host glue fetched
    /// with the mounted application's context, and return it. Before the
    /// application exists there is nowhere to record it.
    pub fn fetch_monitor_frame_duration(&mut self, monitor_frame_duration: Option<u64>) -> (r:
        Option<u64>)
        requires
            old(self).inv(),
        ensures
            final(self).inv(),
            r == monitor_frame_duration,
            final(self).state_spec() == old(self).state_spec(),
            final(self).queue_spec() == old(self).queue_spec(),
            final(self).window_id_spec() == old(self).window_id_spec(),
            final(self).task_id_spec() == old(self).task_id_spec(),
            old(self).app_state_spec() is None ==> *final(self) == *old(self),
            old(self).app_state_spec() is Some ==> final(self).app_state_spec() is Some && ({
                let st0 = old(self).app_state_spec()->0;
                let st1 = final(self).app_state_spec()->0;
                &&& st1.ctx_spec().monitor_frame_duration_spec() == monitor_frame_duration
                &&& st1.window_id_spec() == st0.window_id_spec()
                &&& st1.delivered_spec() == st0.delivered_spec()
            }),
    {
        match self.app_state.take() {
            Option::Some(mut st) => {
                let r = st.fetch_monitor_frame_duration(monitor_frame_duration);
                self.app_state = Option::Some(st);
                r
            },
            Option::None => monitor_frame_duration,
        }
    }

    /// The host hands over the constructed application state; awaited after
    /// `CompleteMount`. `None` — the construction task completed without
    /// yielding a state — is a recoverable anomaly that discards the mount.
    /// Otherwise every buffered event is replayed in arrival order, stopping
    /// at once if one flags an exit; the redraw and refetch requests raised
    /// during replay are merged into the returned actions.
    pub fn complete(&mut self, app_state: Option<AppState<App, U>>, now: u64, timer: &mut Timer) -> (r:
        (MountOutcome, StateActions)) where App: AppHandler<U>
        requires
            old(self).inv(),
            old(self).state_spec() is Mounting,
            old(timer).valid(),
        ensures
            final(self).inv(),
            final(timer).valid(),
            final(self).queue_spec() == Seq::<RuntimeEvent<U>>::empty(),
            app_state is None ==> r.0 == MountOutcome::Failed && final(self).state_spec()
                is Dropped && no_actions(r.1) && *final(timer) == *old(timer),
            app_state matches Option::Some(st) ==> {
                &&& (r.0 == MountOutcome::Completed || r.0 == MountOutcome::ExitDuringReplay)
                &&& final(self).state_spec() is Mounted
                &&& final(self).app_state_spec() is Some
                &&& ({
                    let st1 = final(self).app_state_spec()->0;
                    &&& st1.window_id_spec() == st.window_id_spec()
                    &&& r.0 == MountOutcome::Completed ==> st1.delivered_spec() == replayed(
                        st.window_id_spec(),
                        st.delivered_spec(),
                        old(self).queue_spec(),
                    )
                    &&& r.0 == MountOutcome::ExitDuringReplay ==> st1.ctx_spec().exit_spec()
                        && exists|n: int|
                        0 <= n <= old(self).queue_spec().len() && st1.delivered_spec() == replayed(
                            st.window_id_spec(),
                            st.delivered_spec(),
                            #[trigger] old(self).queue_spec().take(n),
                        )
                })
            },
            r.1.async_wake is None,
    {
        match app_state {
            Option::None => {
                self.state = MountState::Dropped;
                self.event_queue.clear();
                (MountOutcome::Failed, StateActions::empty())
            },
            Option::Some(mut st) => {
                let mut queue: Vec<RuntimeEvent<U>> = Vec::new();
                core::mem::swap(&mut queue, &mut self.event_queue);
                let ghost q0 = queue@;
                let ghost h0 = st.delivered_spec();
                let ghost w = st.window_id_spec();

                let mut request_redraw = false;
                let mut refetch_monitor_rate = false;
                let mut exited = st.exit_flag();

                while !exited && queue.len() > 0
                    invariant
                        timer.valid(),
                        st.window_id_spec() == w,
                        queue@.len() <= q0.len(),
                        queue@ == q0.skip(q0.len() - queue@.len()),
                        st.delivered_spec() == replayed(
                            w,
                            h0,
                            q0.take(q0.len() - queue@.len()),
                        ),
                        exited ==> st.ctx_spec().exit_spec(),
                    decreases queue.len(),
                {
                    let ghost i = q0.len() - queue@.len();
                    proof {
                        assert(queue@[0] == q0[i]);
                        assert(q0.take(i + 1) =~= q0.take(i as int).push(q0[i]));
                        lemma_replayed_snoc(w, h0, q0.take(i as int), q0[i]);
                        assert(queue@.remove(0) =~= q0.skip(i + 1));
                    }
                    let ev = queue.remove(0);
                    let acts = st.event(ev, now, timer);
                    request_redraw = request_redraw || acts.request_redraw;
                    refetch_monitor_rate = refetch_monitor_rate || acts.refetch_monitor_rate;
                    if st.exit_flag() {
                        exited = true;
                    }
                }

                proof {
                    let n = q0.len() - queue@.len();
                    if exited {
                        assert(0 <= n <= old(self).queue_spec().len());
                        assert(st.delivered_spec() == replayed(
                            w,
                            h0,
                            old(self).queue_spec().take(n as int),
                        ));
                    } else {
                        assert(q0.take(q0.len() as int) =~= q0);
                    }
                }
                let outcome = if exited {
                    MountOutcome::ExitDuringReplay
                } else {
                    MountOutcome::Completed
                };
                self.app_state = Option::Some(st);
                self.state = MountState::Mounted;
                self.event_queue.clear();
                (
                    outcome,
                    StateActions {
                        request_redraw,
                        refetch_monitor_rate,
                        async_wake: Option::None,
                    },
                )
            },
        }
    }
}

} // verus!
