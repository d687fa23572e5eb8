//! Application-level scheduling types: timeout owner identities, the event
//! stream delivered to application code, and the mount sequencing machinery.

pub mod ctx;
pub mod futures;
pub mod mount;
pub mod state;

use vstd::prelude::*;
use crate::runtime::WindowEventKind;
use crate::runtime::timer::Timer;

verus! {

/// Identity under which at most one timeout may be pending at a time.
///
/// The owner is a closed set of kinds: a user-visible timer registered by the
/// application, an internal repaint request for a window, and an internal
/// delay suspended inside a task. The payload is the plain key the host glue
/// uses to resolve the owner (a user timer key, a window key, a waker key).
#[derive(Debug, Clone, Copy, PartialEq, Eq, Hash, Structural)]
pub enum AppTimeoutId {
    User(u64),
    FrameRequest(u64),
    Async(u64),
}

/// The event stream an application handler sees once mounted. Internal
/// owners (repaint requests, task delays) are consumed before this point;
/// only user-registered timeouts surface here.
#[derive(Debug, Clone, PartialEq, Eq, Hash)]
pub enum Event<U> {
    Resumed,
    Suspended,
    WindowEvent(WindowEventKind),
    UserEvent(U),
    Timeout { instant: u64, id: u64 },
    FutureReady(u64),
    DeviceEvent { device_id: u64, event: u64 },
}

/// What an application implements to receive events.
///
/// The handler may flag an exit through the context and schedule timeouts
/// through the timer; it must leave the timer well formed, which every
/// public timer operation does.
pub trait AppHandler<U>: Sized {
    fn event(&mut self, app_ctx: &mut ctx::AppCtx, timer: &mut Timer, event: &Event<U>)
        requires
            old(timer).valid(),
        ensures
            final(timer).valid(),
    ;
}

} // verus!
