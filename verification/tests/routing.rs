use hostsched::app::AppTimeoutId;
use hostsched::init::WaitMode;
use hostsched::runtime::{HostEvent, Routed, RuntimeCtx, RuntimeEvent, WindowEventKind};

#[test]
fn lifecycle_notifications_pass_through() {
    let mut ctx: RuntimeCtx<String> = RuntimeCtx::new();
    let routed = ctx.route::<u32>(HostEvent::Resumed, 0);
    assert!(matches!(routed, Routed::Deliver(RuntimeEvent::Resumed)));
    let routed = ctx.route::<u32>(HostEvent::Suspended, 0);
    assert!(matches!(routed, Routed::Deliver(RuntimeEvent::Suspended)));
    let routed = ctx.route::<u32>(HostEvent::Exiting, 0);
    assert!(matches!(routed, Routed::Deliver(RuntimeEvent::Exit)));
    let routed = ctx.route::<u32>(
        HostEvent::WindowEvent { window_id: 4, event: WindowEventKind::CloseRequested },
        0,
    );
    assert!(matches!(
        routed,
        Routed::Deliver(RuntimeEvent::WindowEvent {
            window_id: 4,
            event: WindowEventKind::CloseRequested
        })
    ));
    let routed = ctx.route::<u32>(HostEvent::UserEvent(11u32), 0);
    assert!(matches!(routed, Routed::Deliver(RuntimeEvent::UserEvent(11))));
    let routed = ctx.route::<u32>(HostEvent::DeviceEvent { device_id: 2, event: 3 }, 0);
    assert!(matches!(
        routed,
        Routed::Deliver(RuntimeEvent::DeviceEvent { device_id: 2, event: 3 })
    ));
}

#[test]
fn reached_wake_times_are_translated_by_owner() {
    let mut ctx: RuntimeCtx<String> = RuntimeCtx::new();
    ctx.timer.set_timeout(AppTimeoutId::User(9), 10);
    ctx.timer.set_timeout(AppTimeoutId::Async(5), 20);
    ctx.timer.set_timeout(AppTimeoutId::FrameRequest(7), 30);
    assert_eq!(ctx.take_wait_policy_update(), Some(WaitMode::WaitUntil(10)));

    // a user timeout surfaces as an event
    let routed = ctx.route::<u32>(HostEvent::NewEvents { resume_time_reached: true }, 15);
    assert!(matches!(
        routed,
        Routed::Deliver(RuntimeEvent::Timeout { id: AppTimeoutId::User(9), instant: 10 })
    ));
    assert_eq!(ctx.take_wait_policy_update(), Some(WaitMode::WaitUntil(20)));

    // a task-internal delay is consumed internally as a wake request
    let routed = ctx.route::<u32>(HostEvent::NewEvents { resume_time_reached: true }, 25);
    assert!(matches!(routed, Routed::AsyncWake(5)));
    assert_eq!(ctx.take_wait_policy_update(), Some(WaitMode::WaitUntil(30)));

    // an internal repaint request is consumed internally as a frame firing
    let routed = ctx.route::<u32>(HostEvent::NewEvents { resume_time_reached: true }, 35);
    assert!(matches!(routed, Routed::FrameFired { window_id: 7, instant: 30 }));
    assert_eq!(ctx.take_wait_policy_update(), Some(WaitMode::Wait));

    // nothing due: nothing to do
    let routed = ctx.route::<u32>(HostEvent::NewEvents { resume_time_reached: true }, 99);
    assert!(matches!(routed, Routed::Idle));
    assert_eq!(ctx.take_wait_policy_update(), None);
}

#[test]
fn not_yet_due_front_stays_queued() {
    let mut ctx: RuntimeCtx<String> = RuntimeCtx::new();
    ctx.timer.set_timeout(AppTimeoutId::User(1), 100);
    ctx.take_wait_policy_update();
    let routed = ctx.route::<u32>(HostEvent::NewEvents { resume_time_reached: true }, 50);
    assert!(matches!(routed, Routed::Idle));
    assert_eq!(ctx.timer.len(), 1);
    // an ordinary cycle start consults no timer
    let routed = ctx.route::<u32>(HostEvent::NewEvents { resume_time_reached: false }, 200);
    assert!(matches!(routed, Routed::Idle));
    assert_eq!(ctx.timer.len(), 1);
}

#[test]
fn wake_notification_checks_the_task_out() {
    let mut ctx: RuntimeCtx<String> = RuntimeCtx::new();
    let id = ctx.futures.spawn(String::from("boot"));
    assert_eq!(ctx.futures.take_wake_requests(), vec![id]);

    let routed = ctx.route::<u32>(HostEvent::WakeFuture(id), 0);
    match routed {
        Routed::Drive { id: driven, task } => {
            assert_eq!(driven, id);
            assert_eq!(task, "boot");
            // the poll turned out pending: the task goes back
            ctx.task_pending(driven, task);
        },
        other => panic!("expected a drive, got {:?}", other),
    }

    let routed = ctx.route::<u32>(HostEvent::WakeFuture(id), 0);
    match routed {
        Routed::Drive { id: driven, task } => {
            assert_eq!(task, "boot");
            drop(task);
            let ev: RuntimeEvent<u32> = ctx.task_ready(driven);
            assert!(matches!(ev, RuntimeEvent::FutureReady { id: 0 }));
        },
        other => panic!("expected a drive, got {:?}", other),
    }

    // the task completed; a late wake is reported as stale
    let routed = ctx.route::<u32>(HostEvent::WakeFuture(id), 0);
    assert!(matches!(routed, Routed::StaleWake(0)));
}
