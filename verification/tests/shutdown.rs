use wsh::shutdown::{ClosedWait, ShutdownCoordinator};

#[test]
fn test_no_connections_returns_immediately() {
    let mut coord = ShutdownCoordinator::new();
    coord.shutdown();
    assert_eq!(coord.wait_for_all_closed(), ClosedWait::Proceed);
}

#[test]
fn test_wait_for_connection_to_close() {
    let mut coord = ShutdownCoordinator::new();
    let guard = coord.register();

    assert_eq!(coord.active_count(), 1);

    coord.shutdown();
    assert!(coord.is_shutdown());

    assert_eq!(coord.wait_for_all_closed(), ClosedWait::AwaitNotify);

    let notify = coord.close(guard);
    assert!(notify);

    assert_eq!(coord.wait_for_all_closed(), ClosedWait::Proceed);
    assert_eq!(coord.active_count(), 0);
}

#[test]
fn test_multiple_connections() {
    let mut coord = ShutdownCoordinator::new();
    let guard1 = coord.register();
    let guard2 = coord.register();
    let guard3 = coord.register();

    assert_eq!(coord.active_count(), 3);

    coord.shutdown();

    assert!(!coord.close(guard1));
    assert_eq!(coord.active_count(), 2);
    assert_eq!(coord.wait_for_all_closed(), ClosedWait::AwaitNotify);

    assert!(!coord.close(guard2));
    assert_eq!(coord.active_count(), 1);
    assert_eq!(coord.wait_for_all_closed(), ClosedWait::AwaitNotify);

    assert!(coord.close(guard3));
    assert_eq!(coord.active_count(), 0);

    assert_eq!(coord.wait_for_all_closed(), ClosedWait::Proceed);
}

#[test]
fn test_shutdown_signal_received() {
    let mut coord = ShutdownCoordinator::new();
    let guard = coord.register();

    assert!(!guard.signaled_at_registration());
    assert!(!coord.is_shutdown());

    coord.shutdown();

    assert!(coord.is_shutdown());
}

#[test]
fn shutdown_stays_signaled() {
    let mut coord = ShutdownCoordinator::default();
    assert!(!coord.is_shutdown());
    coord.shutdown();
    let guard = coord.register();
    assert!(guard.signaled_at_registration());
    assert!(coord.is_shutdown());
    coord.close(guard);
    assert!(coord.is_shutdown());
    coord.shutdown();
    assert!(coord.is_shutdown());
}

#[test]
fn a_new_coordinator_has_room() {
    let coord = ShutdownCoordinator::new();
    assert!(coord.has_room());
    assert_eq!(coord.active_count(), 0);
}
