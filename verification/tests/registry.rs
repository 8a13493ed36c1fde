use eventlog::{
    message_file_value_name, registry_base_path, registry_subpath, EventLog, EventLogError,
    EventLogKey, EventLogSystem, Level, RegistryError,
};

#[test]
fn fixed_paths_are_exact() {
    assert_eq!(
        registry_base_path(),
        "SYSTEM\\CurrentControlSet\\Services\\EventLog"
    );
    assert_eq!(message_file_value_name(), "EventMessageFile");
}

#[test]
fn subpath_joins_channel_and_source() {
    let subpath = registry_subpath(&EventLogKey::Application, "MySource");
    assert_eq!(subpath.as_str(), "Application\\MySource");
    let custom = registry_subpath(&EventLogKey::Custom("MyLog".to_string()), "Agent");
    assert_eq!(custom.as_str(), "MyLog\\Agent");
}

#[test]
fn configuration_persists_and_repeats_safely() {
    let mut sys = EventLogSystem::new("C:\\bin\\app.exe", true);
    let subpath = registry_subpath(&EventLogKey::Application, "MySource");
    assert!(!sys.registry_written(&subpath));
    let cfg = EventLog::new(EventLogKey::Application, "MySource", Level::Info)
        .set_message_file_location(&mut sys)
        .unwrap();
    assert!(sys.registry_written(&subpath));
    // running the step again is safe and leaves the same state persisted
    cfg.set_message_file_location(&mut sys).unwrap();
    assert!(sys.registry_written(&subpath));
}

#[test]
fn configurator_writes_under_custom_channel() {
    let mut sys = EventLogSystem::new("C:\\bin\\agent.exe", true);
    let key = EventLogKey::Custom("MyLog".to_string());
    assert!(eventlog::set_message_file_location(&mut sys, &key, "Agent").is_ok());
    let subpath = registry_subpath(&key, "Agent");
    assert!(sys.registry_written(&subpath));
}

#[test]
fn configuration_requires_privilege() {
    let mut sys = EventLogSystem::new("C:\\app.exe", false);
    let r = EventLog::new(EventLogKey::Application, "MySource", Level::Info)
        .set_message_file_location(&mut sys);
    assert!(matches!(
        r,
        Err(EventLogError::RegistryError(
            RegistryError::AdminPrivilegesRequired
        ))
    ));
    let subpath = registry_subpath(&EventLogKey::Application, "MySource");
    assert!(!sys.registry_written(&subpath));
}
