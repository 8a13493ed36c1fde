use vstd::prelude::*;
use crate::level::Level;

verus! {

/// The host's event-type classification of a recorded event.
#[derive(Clone, Copy, Debug, PartialEq, Eq, Structural)]
pub enum EventLogType {
    Success,
    AuditFailure,
    AuditSuccess,
    Error,
    Information,
    Warning,
}

impl EventLogType {
    /// The numeric code the host's report entry point takes for this
    /// event type.
    pub open spec fn code_spec(self) -> u16 {
        match self {
            EventLogType::Success => 0x0000,
            EventLogType::AuditFailure => 0x0010,
            EventLogType::AuditSuccess => 0x0008,
            EventLogType::Error => 0x0001,
            EventLogType::Information => 0x0004,
            EventLogType::Warning => 0x0002,
        }
    }

    /// Returns the numeric event-type code.
    pub fn code(self) -> (r: u16)
        ensures
            r == self.code_spec(),
    {
        match self {
            EventLogType::Success => 0x0000,
            EventLogType::AuditFailure => 0x0010,
            EventLogType::AuditSuccess => 0x0008,
            EventLogType::Error => 0x0001,
            EventLogType::Information => 0x0004,
            EventLogType::Warning => 0x0002,
        }
    }
}

/// Message identifier for an error-level record, defined by the external
/// message catalog that is compiled into the executable.
pub const MSG_ERROR: u32 = 0xC000_0001;

/// Message identifier for a warning-level record.
pub const MSG_WARNING: u32 = 0x8000_0002;

/// Message identifier for an info-level record.
pub const MSG_INFO: u32 = 0x4000_0003;

/// Message identifier for a debug-level record.
pub const MSG_DEBUG: u32 = 0x4000_0004;

/// Message identifier for a trace-level record.
pub const MSG_TRACE: u32 = 0x4000_0005;

/// The severity mapping: the event type and catalog message identifier
/// under which a record of the given application level is reported.
pub open spec fn severity_map_spec(level: Level) -> (EventLogType, u32) {
    match level {
        Level::Error => (EventLogType::Error, MSG_ERROR),
        Level::Warn => (EventLogType::Warning, MSG_WARNING),
        Level::Info => (EventLogType::Information, MSG_INFO),
        Level::Debug => (EventLogType::Information, MSG_DEBUG),
        Level::Trace => (EventLogType::Information, MSG_TRACE),
    }
}

/// Maps an application level to the host event type and the catalog message
/// identifier of its record.
pub fn severity_map(level: Level) -> (r: (EventLogType, u32))
    ensures
        r == severity_map_spec(level),
{
    match level {
        Level::Error => (EventLogType::Error, MSG_ERROR),
        Level::Warn => (EventLogType::Warning, MSG_WARNING),
        Level::Info => (EventLogType::Information, MSG_INFO),
        Level::Debug => (EventLogType::Information, MSG_DEBUG),
        Level::Trace => (EventLogType::Information, MSG_TRACE),
    }
}

/// The severity mapping is total and deterministic: every level maps to
/// exactly one pair, distinct levels map to distinct pairs, and both
/// `Debug` and `Trace` map to the information event type.
pub proof fn lemma_severity_map_total()
    ensures
        forall|a: Level, b: Level|
            #![trigger severity_map_spec(a), severity_map_spec(b)]
            severity_map_spec(a) == severity_map_spec(b) ==> a == b,
        severity_map_spec(Level::Debug).0 is Information,
        severity_map_spec(Level::Trace).0 is Information,
{
}

} // verus!
