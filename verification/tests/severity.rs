use eventlog::{severity_map, EventLogType, Level};
use eventlog::{MSG_DEBUG, MSG_ERROR, MSG_INFO, MSG_TRACE, MSG_WARNING};

#[test]
fn every_level_maps_to_its_pair() {
    assert_eq!(severity_map(Level::Error), (EventLogType::Error, MSG_ERROR));
    assert_eq!(severity_map(Level::Warn), (EventLogType::Warning, MSG_WARNING));
    assert_eq!(severity_map(Level::Info), (EventLogType::Information, MSG_INFO));
    assert_eq!(severity_map(Level::Debug), (EventLogType::Information, MSG_DEBUG));
    assert_eq!(severity_map(Level::Trace), (EventLogType::Information, MSG_TRACE));
}

#[test]
fn debug_and_trace_report_as_information() {
    assert_eq!(severity_map(Level::Debug).0, EventLogType::Information);
    assert_eq!(severity_map(Level::Trace).0, EventLogType::Information);
}

#[test]
fn event_type_codes_match_the_host_scheme() {
    assert_eq!(EventLogType::Success.code(), 0x0000);
    assert_eq!(EventLogType::Error.code(), 0x0001);
    assert_eq!(EventLogType::Warning.code(), 0x0002);
    assert_eq!(EventLogType::Information.code(), 0x0004);
    assert_eq!(EventLogType::AuditSuccess.code(), 0x0008);
    assert_eq!(EventLogType::AuditFailure.code(), 0x0010);
}

#[test]
fn message_identifiers_are_distinct() {
    let ids = [MSG_ERROR, MSG_WARNING, MSG_INFO, MSG_DEBUG, MSG_TRACE];
    for i in 0..ids.len() {
        for j in 0..ids.len() {
            if i != j {
                assert_ne!(ids[i], ids[j]);
            }
        }
    }
}
