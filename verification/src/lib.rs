//! A logging backend that bridges a leveled structured-logging API to a host
//! operating system's centralized event-recording subsystem.
//!
//! The crate covers the event-source lifecycle and the log-record translation
//! pipeline: acquiring a handle to a named event channel, mapping application
//! log levels to the host's severity and message-identifier scheme, encoding
//! each record as a terminated wide-character buffer, and releasing the handle
//! exactly once on teardown. The host subsystem itself is modeled as explicit
//! process-scoped state ([`EventLogSystem`] and [`LoggerSlot`]), so that every
//! decision the backend makes is stated and checked; a thin platform binding
//! performs the actual operating-system calls.

mod builder;
mod encode;
mod error;
mod key;
mod level;
mod logger;
mod registry;
mod severity;
mod system;

use vstd::prelude::*;

pub use encode::{encode_record, encode_wide, encode_wide_terminated, record_units};
pub use encode::{lemma_wide_encoding_push, wide_encoding, wide_units};
pub use error::{EventLogError, RegistryError};
pub use error::{format_win_error, lemma_failure_text_nonempty, STATUS_ACCESS_DENIED, STATUS_SUCCESS};
pub use key::{lemma_key_canonical_names, EventLogKey};
pub use level::Level;
pub use logger::{record_view, InnerLogger, LoggerSlot};
pub use registry::{lemma_configuration_idempotent, message_file_value_name, registry_base_path};
pub use registry::{registry_open_outcome, registry_set_outcome, registry_subpath, subpath_spec};
pub use registry::set_message_file_location;
pub use severity::{lemma_severity_map_total, severity_map, EventLogType};
pub use severity::{MSG_DEBUG, MSG_ERROR, MSG_INFO, MSG_TRACE, MSG_WARNING};
pub use system::{registry_map_of, EventLogSystem, EventView, ReportedEvent};
pub use builder::EventLogBuilder;

verus! {

/// Configuration of an event source: the channel key to register under,
/// the source name, and the minimum severity threshold.
pub struct EventLog {
    /// The threshold handed to the adapter on registration.
    pub level: Level,
    /// The source name the handle is acquired for.
    pub source: String,
    /// The channel the source registers under.
    pub event_log_key: EventLogKey,
}

impl EventLog {
    /// Constructs a new configuration.
    pub fn new(key: EventLogKey, source: &str, level: Level) -> (r: Self)
        requires
            key.wf(),
        ensures
            r.level == level,
            r.source@ == source@,
            r.event_log_key == key,
    {
        EventLog { level, source: source.to_owned(), event_log_key: key }
    }

    /// An empty builder, ready to accumulate configuration.
    pub fn builder() -> (r: EventLogBuilder)
        ensures
            !r.set_registry,
            r.level is None,
            r.event_log_key is Application,
            r.event_source is None,
    {
        EventLogBuilder::default()
    }

    /// Points the message-file value for the configured channel and source
    /// at the current executable. Needed only once, on install, unless the
    /// executable moves; it requires elevation, and an unprivileged process
    /// is refused with a configuration error while nothing is persisted.
    pub fn set_message_file_location(self, sys: &mut EventLogSystem) -> (r: Result<
        EventLog,
        EventLogError,
    >)
        requires
            old(sys).wf(),
            self.event_log_key.wf(),
        ensures
            final(sys).wf(),
            final(sys).executable_path_spec() == old(sys).executable_path_spec(),
            final(sys).is_privileged() == old(sys).is_privileged(),
            final(sys).issued() == old(sys).issued(),
            final(sys).live() == old(sys).live(),
            final(sys).reported() == old(sys).reported(),
            old(sys).is_privileged() ==> (r matches Ok(e) && e == self && final(sys).registry_map()
                == old(sys).registry_map().insert(
                subpath_spec(self.event_log_key, self.source@),
                old(sys).executable_path_spec(),
            )),
            !old(sys).is_privileged() ==> r == Err::<EventLog, EventLogError>(
                EventLogError::RegistryError(RegistryError::AdminPrivilegesRequired),
            ) && *final(sys) == *old(sys),
    {
        match registry::set_message_file_location(sys, &self.event_log_key, self.source.as_str()) {
            Ok(()) => Ok(self),
            Err(e) => Err(EventLogError::RegistryError(e)),
        }
    }

    /// Registers the event source and installs the adapter as the
    /// process-wide logger. On success the adapter owns a fresh handle and
    /// the configured threshold. When the slot is already occupied the
    /// freshly acquired handle is released again before the error returns,
    /// so no path leaks it.
    pub fn register(self, sys: &mut EventLogSystem, slot: &mut LoggerSlot) -> (r: Result<
        EventLog,
        EventLogError,
    >)
        requires
            old(sys).wf(),
            old(sys).issued() < u64::MAX,
            self.event_log_key.wf(),
        ensures
            final(sys).wf(),
            final(sys).registry_map() == old(sys).registry_map(),
            final(sys).executable_path_spec() == old(sys).executable_path_spec(),
            final(sys).is_privileged() == old(sys).is_privileged(),
            final(sys).reported() == old(sys).reported(),
            self.event_log_key is Security ==> r == Err::<EventLog, EventLogError>(
                EventLogError::RegisterFailed(STATUS_ACCESS_DENIED),
            ) && *final(sys) == *old(sys) && *final(slot) == *old(slot),
            !(self.event_log_key is Security) && old(slot).installed() is Some ==> {
                &&& r == Err::<EventLog, EventLogError>(EventLogError::InitializationFailed)
                &&& final(sys).live() == old(sys).live()
                &&& *final(slot) == *old(slot)
            },
            !(self.event_log_key is Security) && old(slot).installed() is None ==> {
                &&& r matches Ok(e) && e == self
                &&& final(slot).installed() matches Some(l) && l.handle == old(sys).issued()
                    && l.level == self.level && !l.released
                &&& final(sys).live() == old(sys).live().insert(old(sys).issued())
            },
    {
        let handle = match Self::register_event_source(sys, &self.event_log_key, self.source.as_str()) {
            Ok(h) => h,
            Err(e) => {
                return Err(e);
            },
        };
        let logger = InnerLogger::new(handle, self.level);
        match slot.install(logger) {
            Ok(()) => Ok(self),
            Err(mut rejected) => {
                rejected.release(sys);
                proof {
                    assert(old(sys).live().insert(handle).remove(handle) =~= old(sys).live());
                }
                Err(EventLogError::InitializationFailed)
            },
        }
    }

    /// Calls the host's registration entry point for the source: the name
    /// goes out encoded with its explicit terminator, and any refusal
    /// becomes a registration error.
    pub(crate) fn register_event_source(
        sys: &mut EventLogSystem,
        key: &EventLogKey,
        source: &str,
    ) -> (r: Result<u64, EventLogError>)
        requires
            old(sys).wf(),
            old(sys).issued() < u64::MAX,
            key.wf(),
        ensures
            final(sys).wf(),
            final(sys).registry_map() == old(sys).registry_map(),
            final(sys).executable_path_spec() == old(sys).executable_path_spec(),
            final(sys).is_privileged() == old(sys).is_privileged(),
            final(sys).reported() == old(sys).reported(),
            *key is Security ==> r == Err::<u64, EventLogError>(
                EventLogError::RegisterFailed(STATUS_ACCESS_DENIED),
            ) && *final(sys) == *old(sys),
            !(*key is Security) ==> {
                &&& r == Ok::<u64, EventLogError>(old(sys).issued())
                &&& !old(sys).live().contains(old(sys).issued())
                &&& final(sys).live() == old(sys).live().insert(old(sys).issued())
                &&& final(sys).issued() == old(sys).issued() + 1
            },
    {
        let units = encode::encode_wide_terminated(source);
        sys.register_source(key, &units)
    }
}

} // verus!
