use hostsched::app::ctx::{AppCtx, STD_FRAME_DURATION};
use hostsched::app::state::AppState;
use hostsched::app::{AppHandler, AppTimeoutId, Event};
use hostsched::runtime::timer::Timer;
use hostsched::runtime::{RuntimeEvent, WindowEventKind};

/// Application that does nothing.
struct Still;

impl AppHandler<u32> for Still {
    fn event(&mut self, _app_ctx: &mut AppCtx, _timer: &mut Timer, _event: &Event<u32>) {}
}

/// Application that asks for a frame whenever it is resumed.
struct Pacer;

impl AppHandler<u32> for Pacer {
    fn event(&mut self, app_ctx: &mut AppCtx, _timer: &mut Timer, event: &Event<u32>) {
        if matches!(event, Event::Resumed) {
            app_ctx.request_frame();
        }
    }
}

fn window_event(window_id: u64, event: WindowEventKind) -> RuntimeEvent<u32> {
    RuntimeEvent::WindowEvent { window_id, event }
}

fn resumed() -> RuntimeEvent<u32> {
    RuntimeEvent::Resumed
}

#[test]
fn close_request_flags_exit() {
    let mut timer = Timer::new();
    let mut state = AppState::new(AppCtx::new(7, 0, None), Still);
    assert!(!state.exit_flag());
    let acts = state.event(window_event(7, WindowEventKind::CloseRequested), 0, &mut timer);
    assert!(state.exit_flag());
    assert!(!acts.request_redraw);
}

#[test]
fn events_of_other_windows_are_ignored() {
    let mut timer = Timer::new();
    let mut state = AppState::new(AppCtx::new(7, 0, None), Still);
    let acts = state.event(window_event(8, WindowEventKind::CloseRequested), 0, &mut timer);
    assert!(!state.exit_flag());
    assert!(!acts.request_redraw);
    assert!(!acts.refetch_monitor_rate);
}

#[test]
fn resize_requests_a_redraw() {
    let mut timer = Timer::new();
    let mut state = AppState::new(AppCtx::new(7, 0, None), Still);
    let acts = state.event(
        window_event(7, WindowEventKind::Resized { width: 10, height: 10 }),
        0,
        &mut timer,
    );
    assert!(acts.request_redraw);
    let acts = state.event(window_event(7, WindowEventKind::ScaleFactorChanged), 0, &mut timer);
    assert!(acts.request_redraw);
}

#[test]
fn moving_the_window_refetches_the_monitor_rate() {
    let mut timer = Timer::new();
    let mut state = AppState::new(AppCtx::new(7, 0, None), Still);
    let acts = state.event(window_event(7, WindowEventKind::Moved { x: 1, y: 2 }), 0, &mut timer);
    assert!(acts.refetch_monitor_rate);
    assert!(!acts.request_redraw);
}

#[test]
fn task_delay_firings_are_reported_for_waking() {
    let mut timer = Timer::new();
    let mut state = AppState::new(AppCtx::new(7, 0, None), Still);
    let ev: RuntimeEvent<u32> = RuntimeEvent::Timeout { id: AppTimeoutId::Async(11), instant: 5 };
    let acts = state.event(ev, 0, &mut timer);
    assert_eq!(acts.async_wake, Some(11));
    assert!(!acts.request_redraw);
}

#[test]
fn requested_frame_is_scheduled_with_the_timer() {
    let mut timer = Timer::new();
    let mut state = AppState::new(AppCtx::new(7, 0, None), Pacer);
    let acts = state.event(resumed(), 0, &mut timer);
    // the frame is due one standard frame duration after frame time zero
    assert!(!acts.request_redraw);
    assert_eq!(
        timer.get_timeout(&AppTimeoutId::FrameRequest(7)),
        Some(STD_FRAME_DURATION)
    );
}

#[test]
fn overdue_frame_redraws_at_once() {
    let mut timer = Timer::new();
    let mut state = AppState::new(AppCtx::new(7, 0, None), Pacer);
    let now = 10 * STD_FRAME_DURATION;
    let acts = state.event(resumed(), now, &mut timer);
    assert!(acts.request_redraw);
    assert_eq!(timer.get_timeout(&AppTimeoutId::FrameRequest(7)), None);
    assert_eq!(state.app_ctx.frame_time, now);
}

#[test]
fn frame_firing_adopts_the_instant_and_redraws() {
    let mut timer = Timer::new();
    let mut state: AppState<Still, u32> = AppState::new(AppCtx::new(7, 0, None), Still);
    let acts = state.frame_fired(7, 500);
    assert!(acts.request_redraw);
    assert_eq!(state.app_ctx.frame_time, 500);
    // a firing for another window is ignored
    let acts = state.frame_fired(8, 900);
    assert!(!acts.request_redraw);
    assert_eq!(state.app_ctx.frame_time, 500);
}

#[test]
fn unsolicited_redraw_resets_the_frame_time() {
    let mut timer = Timer::new();
    let mut state = AppState::new(AppCtx::new(7, 0, None), Still);
    let acts = state.event(window_event(7, WindowEventKind::RedrawRequested), 123, &mut timer);
    assert!(!acts.request_redraw);
    assert_eq!(state.app_ctx.frame_time, 123);
}

#[test]
fn context_frame_duration_prefers_manual_over_monitor() {
    let mut ctx = AppCtx::new(7, 0, Some(1_000));
    assert_eq!(ctx.frame_duration(), 1_000);
    ctx.set_frame_duration(Some(2_000));
    assert_eq!(ctx.frame_duration(), 2_000);
    ctx.set_frame_duration(None);
    assert_eq!(ctx.fetch_monitor_frame_duration(None), None);
    assert_eq!(ctx.frame_duration(), STD_FRAME_DURATION);
    assert_eq!(ctx.manual_frame_duration(), None);
    assert_eq!(ctx.monitor_frame_duration(), None);
}

#[test]
fn context_sync_frame_time_is_bounded_by_now_plus_duration() {
    let mut ctx = AppCtx::new(7, 0, Some(100));
    ctx.sync_frame_time(50, 0);
    assert_eq!(ctx.frame_time(), 50);
    ctx.sync_frame_time(5_000, 0);
    assert_eq!(ctx.frame_time(), 100);
}

#[test]
fn monitor_rate_refetch_reaches_the_context() {
    let mut state: AppState<Still, u32> = AppState::new(AppCtx::new(7, 0, None), Still);
    assert_eq!(state.fetch_monitor_frame_duration(Some(9)), Some(9));
    assert_eq!(state.app_ctx.monitor_frame_duration, Some(9));
}

#[test]
fn context_user_timeouts_round_trip() {
    let mut timer = Timer::new();
    let ctx = AppCtx::new(7, 0, None);
    assert!(ctx.set_timeout(&mut timer, 1, 100).was_none());
    assert_eq!(ctx.get_timeout(&timer, 1), Some(100));
    assert!(ctx.set_timeout_earlier(&mut timer, 1, 150).found_earlier());
    assert!(ctx.set_timeout_wait(&mut timer, 2, 30, 10).was_none());
    assert_eq!(ctx.get_timeout(&timer, 2), Some(40));
    assert!(ctx.set_timeout_wait_earlier(&mut timer, 2, u64::MAX, 10).found_earlier());
    assert!(ctx.cancel_timeout(&mut timer, 1, None).was_canceld());
    assert_eq!(ctx.get_timeout(&timer, 1), None);
}
