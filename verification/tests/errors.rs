use eventlog::{format_win_error, registry_open_outcome, registry_set_outcome, RegistryError};

#[test]
fn test_win_error_formatting() {
    let error = format_win_error(5, None);
    assert!(error.is_some());
    println!("{:?}", error);
    let error = format_win_error(6, None);
    assert!(error.is_some());
    println!("{:?}", error);
}

#[test]
fn success_status_formats_to_nothing() {
    assert!(format_win_error(0, None).is_none());
    assert!(format_win_error(0, Some("ignored".to_string())).is_none());
}

#[test]
fn failure_status_formats_to_nonempty_text() {
    let file_not_found = format_win_error(2, Some("The system cannot find the file specified.".to_string()));
    assert_eq!(
        file_not_found.as_deref(),
        Some("The system cannot find the file specified.")
    );
    let access_denied = format_win_error(5, Some("Access is denied.".to_string()));
    assert_eq!(access_denied.as_deref(), Some("Access is denied."));
    let unavailable = format_win_error(31, None);
    assert_eq!(unavailable.as_deref(), Some("failed to format error"));
    assert!(!unavailable.unwrap().is_empty());
}

#[test]
fn open_outcome_distinguishes_failures() {
    assert!(registry_open_outcome(0, None).is_ok());
    assert!(matches!(
        registry_open_outcome(5, None),
        Err(RegistryError::AdminPrivilegesRequired)
    ));
    match registry_open_outcome(2, Some("not found".to_string())) {
        Err(RegistryError::FailedToOpen(t)) => assert_eq!(t, "not found"),
        other => panic!("unexpected outcome: {:?}", other),
    }
}

#[test]
fn set_outcome_distinguishes_failures() {
    assert!(registry_set_outcome(0, None).is_ok());
    assert!(matches!(
        registry_set_outcome(5, None),
        Err(RegistryError::AdminPrivilegesRequired)
    ));
    match registry_set_outcome(87, None) {
        Err(RegistryError::FailedToSet(t)) => assert_eq!(t, "failed to format error"),
        other => panic!("unexpected outcome: {:?}", other),
    }
}
