use eventlog::EventLogKey;

#[test]
fn key_event_log_key_display() {
    assert_eq!(EventLogKey::Application.to_string(), "Application");
    assert_eq!(EventLogKey::Security.to_string(), "Security");
    assert_eq!(EventLogKey::System.to_string(), "System");
    assert_eq!(
        EventLogKey::Custom("Custom".to_string()).to_string(),
        "Custom"
    );
    assert_eq!(
        EventLogKey::Custom("WindowsEventLog".to_string()).to_string(),
        "WindowsEventLog"
    );
}

#[test]
fn lib_event_log_key_display() {
    assert_eq!(EventLogKey::Application.to_string(), "Application");
    assert_eq!(EventLogKey::Security.to_string(), "Security");
    assert_eq!(EventLogKey::System.to_string(), "System");
    assert_eq!(
        EventLogKey::Custom("Custom".to_string()).to_string(),
        "Custom"
    );
    assert_eq!(
        EventLogKey::Custom("WindowsEventLog".to_string()).to_string(),
        "WindowsEventLog"
    );
}

#[test]
fn default_key_is_application() {
    assert!(matches!(EventLogKey::default(), EventLogKey::Application));
}
