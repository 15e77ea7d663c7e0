use doodle::host::{host_action, HostAction, HostEvent};
use doodle::surface::{
    acquire_recovery, start_condition, AcquireStep, LifecycleEvent, SurfaceExtent, SurfaceFailure,
    Viewport,
};

#[test]
fn zero_size_is_clamped() {
    let e = SurfaceExtent::new(0, 0);
    assert_eq!(e, SurfaceExtent { width: 1, height: 1 });
    let e = SurfaceExtent::new(800, 0);
    assert_eq!(e, SurfaceExtent { width: 800, height: 1 });
}

#[test]
fn resize_twice_is_resize_once() {
    let mut e = SurfaceExtent::new(640, 480);
    let mut v = Viewport::new(e);
    e.resize(1024, 768);
    v.resize(e);
    let (e1, v1) = (e, v);
    e.resize(1024, 768);
    v.resize(e);
    assert_eq!(e, e1);
    assert_eq!(v, v1);
    assert_eq!(v.depth, SurfaceExtent { width: 1024, height: 768 });
    assert_eq!(v.aspect(), (1024, 768));
}

#[test]
fn resize_to_zero_keeps_one_pixel() {
    let mut e = SurfaceExtent::new(640, 480);
    e.resize(0, 300);
    let mut v = Viewport::new(SurfaceExtent::new(1, 1));
    v.resize(e);
    assert_eq!(v.screen, SurfaceExtent { width: 1, height: 300 });
}

#[test]
fn timeout_retries_once() {
    assert_eq!(acquire_recovery(SurfaceFailure::Timeout, 0), AcquireStep::Retry);
    assert_eq!(acquire_recovery(SurfaceFailure::Timeout, 1), AcquireStep::GiveUp);
}

#[test]
fn stale_surface_reconfigures() {
    for f in [SurfaceFailure::Outdated, SurfaceFailure::Lost, SurfaceFailure::OutOfMemory] {
        assert_eq!(acquire_recovery(f, 0), AcquireStep::ReconfigureAndRetry);
        assert_eq!(acquire_recovery(f, 1), AcquireStep::GiveUp);
    }
}

#[test]
fn start_events() {
    assert!(start_condition(LifecycleEvent::Init, false));
    assert!(!start_condition(LifecycleEvent::Resumed, false));
    assert!(start_condition(LifecycleEvent::Resumed, true));
    assert!(!start_condition(LifecycleEvent::Init, true));
    assert!(!start_condition(LifecycleEvent::Other, false));
}

#[test]
fn host_dispatch_before_and_after_init() {
    assert_eq!(host_action(HostEvent::Start, false), HostAction::Resume { init_scene: true });
    assert_eq!(host_action(HostEvent::Start, true), HostAction::Resume { init_scene: false });
    assert_eq!(host_action(HostEvent::RedrawRequested, false), HostAction::Ignore);
    assert_eq!(host_action(HostEvent::RedrawRequested, true), HostAction::Render);
    assert_eq!(host_action(HostEvent::Resized, false), HostAction::Resize { resize_scene: false });
    assert_eq!(host_action(HostEvent::Resized, true), HostAction::Resize { resize_scene: true });
    assert_eq!(host_action(HostEvent::Input, true), HostAction::Update);
    assert_eq!(host_action(HostEvent::Input, false), HostAction::Ignore);
    assert_eq!(host_action(HostEvent::CloseRequested, false), HostAction::Exit);
    assert_eq!(host_action(HostEvent::ReportRequested, true), HostAction::PrintReport);
    assert_eq!(host_action(HostEvent::Suspended, true), HostAction::Suspend);
    assert_eq!(host_action(HostEvent::Other, true), HostAction::Ignore);
}
