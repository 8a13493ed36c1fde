use eventlog::{encode_wide_terminated, EventLogKey, EventLogSystem, InnerLogger, Level};

#[test]
fn release_happens_exactly_once() {
    let mut sys = EventLogSystem::new("C:\\app.exe", false);
    let units = encode_wide_terminated("OwnedSource");
    let handle = sys
        .register_source(&EventLogKey::Application, &units)
        .unwrap();
    assert!(sys.is_live(handle));
    assert_eq!(sys.live_count(), 1);

    let mut logger = InnerLogger::new(handle, Level::Info);
    let first = logger.release(&mut sys);
    assert!(first);
    assert!(!sys.is_live(handle));
    assert_eq!(sys.live_count(), 0);

    // a second drop must not attempt a second deregistration
    let second = logger.release(&mut sys);
    assert!(!second);
    assert_eq!(sys.live_count(), 0);
}

#[test]
fn released_handle_refuses_reports() {
    let mut sys = EventLogSystem::new("C:\\app.exe", false);
    let units = encode_wide_terminated("OwnedSource");
    let handle = sys
        .register_source(&EventLogKey::Application, &units)
        .unwrap();
    let mut logger = InnerLogger::new(handle, Level::Trace);
    assert!(logger.log(&mut sys, Level::Info, "while live"));
    assert_eq!(sys.reported_count(), 1);
    logger.release(&mut sys);
    let logger_after = InnerLogger::new(handle, Level::Trace);
    assert!(!logger_after.log(&mut sys, Level::Info, "after release"));
    assert_eq!(sys.reported_count(), 1);
}

#[test]
fn deregistering_dead_handle_is_refused() {
    let mut sys = EventLogSystem::new("C:\\app.exe", false);
    assert!(!sys.deregister_source(42));
    assert_eq!(sys.live_count(), 0);
}
