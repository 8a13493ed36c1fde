use eventlog::{EventLog, EventLogError, EventLogKey, EventLogSystem, Level, LoggerSlot};

#[test]
fn builder_pattern() {
    let mut sys = EventLogSystem::new("C:\\app.exe", true);
    let mut slot = LoggerSlot::new();
    assert!(EventLog::builder()
        .level(Level::Info)
        .event_source("Builder Test")
        .set_registry(false)
        .register(&mut sys, &mut slot)
        .is_ok());
}

#[test]
fn builder_end_to_end_enabled_levels() {
    let mut sys = EventLogSystem::new("C:\\app.exe", true);
    let mut slot = LoggerSlot::new();
    let r = EventLog::builder()
        .event_log_key(EventLogKey::Custom("TestSource".to_string()))
        .level(Level::Info)
        .event_source("TestSource")
        .set_registry(false)
        .register(&mut sys, &mut slot);
    assert!(r.is_ok());
    let logger = slot.logger().expect("an adapter was installed");
    assert!(logger.enabled(Level::Info));
    assert!(logger.enabled(Level::Warn));
    assert!(logger.enabled(Level::Error));
    assert!(!logger.enabled(Level::Debug));
    assert!(!logger.enabled(Level::Trace));
}

#[test]
fn builder_register_with_registry_step() {
    let mut sys = EventLogSystem::new("C:\\bin\\svc.exe", true);
    let mut slot = LoggerSlot::new();
    let r = EventLog::builder()
        .level(Level::Debug)
        .event_source("SvcSource")
        .set_registry(true)
        .register(&mut sys, &mut slot);
    assert!(r.is_ok());
    let subpath = eventlog::registry_subpath(&EventLogKey::Application, "SvcSource");
    assert!(sys.registry_written(&subpath));
}

#[test]
fn builder_registry_step_needs_privilege() {
    let mut sys = EventLogSystem::new("C:\\app.exe", false);
    let mut slot = LoggerSlot::new();
    let r = EventLog::builder()
        .level(Level::Info)
        .event_source("NoAdmin")
        .set_registry(true)
        .register(&mut sys, &mut slot);
    assert!(matches!(
        r,
        Err(EventLogError::RegistryError(
            eventlog::RegistryError::AdminPrivilegesRequired
        ))
    ));
    assert!(slot.logger().is_none());
    assert_eq!(sys.live_count(), 0);
}

#[test]
fn install_once() {
    let mut sys = EventLogSystem::new("C:\\app.exe", true);
    let mut slot = LoggerSlot::new();
    let first = EventLog::new(EventLogKey::Application, "First", Level::Info)
        .register(&mut sys, &mut slot);
    assert!(first.is_ok());
    assert_eq!(sys.live_count(), 1);
    let second = EventLog::new(EventLogKey::Application, "Second", Level::Info)
        .register(&mut sys, &mut slot);
    assert!(matches!(second, Err(EventLogError::InitializationFailed)));
    // the handle acquired for the refused installation was released again
    assert_eq!(sys.live_count(), 1);
}
