use vstd::prelude::*;
use crate::error::{EventLogError, RegistryError, STATUS_ACCESS_DENIED};
use crate::key::EventLogKey;
use crate::level::Level;
use crate::logger::{InnerLogger, LoggerSlot};
use crate::registry;
use crate::registry::subpath_spec;
use crate::system::EventLogSystem;
use crate::EventLog;

verus! {

/// Fluent assembly of an event-source configuration: whether to run the
/// message-file configuration step, the minimum level, the channel key,
/// and the source name.
pub struct EventLogBuilder {
    /// Whether `register` runs the message-file configuration step first.
    pub set_registry: bool,
    /// The threshold; must be set before `register`.
    pub level: Option<Level>,
    /// The channel key; `Application` unless chosen otherwise.
    pub event_log_key: EventLogKey,
    /// The source name; must be set before `register`.
    pub event_source: Option<String>,
}

impl Default for EventLogBuilder {
    fn default() -> (r: Self)
        ensures
            !r.set_registry,
            r.level is None,
            r.event_log_key is Application,
            r.event_source is None,
    {
        EventLogBuilder {
            set_registry: false,
            level: None,
            event_log_key: EventLogKey::default(),
            event_source: None,
        }
    }
}

impl EventLogBuilder {
    /// Chooses whether registration first points the message-file value at
    /// the current executable.
    pub fn set_registry(self, set: bool) -> (r: Self)
        ensures
            r.set_registry == set,
            r.level == self.level,
            r.event_log_key == self.event_log_key,
            r.event_source == self.event_source,
    {
        EventLogBuilder { set_registry: set, ..self }
    }

    /// Sets the minimum severity threshold.
    pub fn level(self, level: Level) -> (r: Self)
        ensures
            r.set_registry == self.set_registry,
            r.level == Some(level),
            r.event_log_key == self.event_log_key,
            r.event_source == self.event_source,
    {
        EventLogBuilder { level: Some(level), ..self }
    }

    /// Sets the channel key to register under.
    pub fn event_log_key(self, key: EventLogKey) -> (r: Self)
        requires
            key.wf(),
        ensures
            r.set_registry == self.set_registry,
            r.level == self.level,
            r.event_log_key == key,
            r.event_source == self.event_source,
    {
        EventLogBuilder { event_log_key: key, ..self }
    }

    /// Sets the source name.
    pub fn event_source(self, source: &str) -> (r: Self)
        ensures
            r.set_registry == self.set_registry,
            r.level == self.level,
            r.event_log_key == self.event_log_key,
            r.event_source matches Some(s) && s@ == source@,
    {
        EventLogBuilder { event_source: Some(source.to_owned()), ..self }
    }

    /// Finalizes the configuration: runs the message-file step when asked
    /// to, registers the event source, and installs the adapter as the
    /// process-wide logger, surfacing the first failure. A source name and
    /// a level are the caller's obligations. Nothing is left behind on
    /// failure beyond a message-file write that already completed, which is
    /// intentionally persistent; in particular, a handle acquired before a
    /// failed installation is released again.
    pub fn register(self, sys: &mut EventLogSystem, slot: &mut LoggerSlot) -> (r: Result<
        (),
        EventLogError,
    >)
        requires
            old(sys).wf(),
            old(sys).issued() < u64::MAX,
            self.event_log_key.wf(),
            self.event_source is Some,
            self.level is Some,
        ensures
            final(sys).wf(),
            final(sys).executable_path_spec() == old(sys).executable_path_spec(),
            final(sys).is_privileged() == old(sys).is_privileged(),
            final(sys).reported() == old(sys).reported(),
            self.set_registry && old(sys).is_privileged() ==> final(sys).registry_map()
                == old(sys).registry_map().insert(
                subpath_spec(self.event_log_key, self.event_source->0@),
                old(sys).executable_path_spec(),
            ),
            !(self.set_registry && old(sys).is_privileged()) ==> final(sys).registry_map()
                == old(sys).registry_map(),
            self.set_registry && !old(sys).is_privileged() ==> r == Err::<(), EventLogError>(
                EventLogError::RegistryError(RegistryError::AdminPrivilegesRequired),
            ) && *final(sys) == *old(sys) && *final(slot) == *old(slot),
            !self.set_registry || old(sys).is_privileged() ==> {
                &&& self.event_log_key is Security ==> {
                    &&& r == Err::<(), EventLogError>(
                        EventLogError::RegisterFailed(STATUS_ACCESS_DENIED),
                    )
                    &&& final(sys).live() == old(sys).live()
                    &&& *final(slot) == *old(slot)
                }
                &&& !(self.event_log_key is Security) && old(slot).installed() is Some ==> {
                    &&& r == Err::<(), EventLogError>(EventLogError::InitializationFailed)
                    &&& final(sys).live() == old(sys).live()
                    &&& *final(slot) == *old(slot)
                }
                &&& !(self.event_log_key is Security) && old(slot).installed() is None ==> {
                    &&& r is Ok
                    &&& final(slot).installed() matches Some(l) && l.handle == old(sys).issued()
                        && l.level == self.level->0 && !l.released
                    &&& final(sys).live() == old(sys).live().insert(old(sys).issued())
                }
            },
    {
        let EventLogBuilder { set_registry, level, event_log_key, event_source } = self;
        let source = event_source.unwrap();
        let threshold = level.unwrap();

        if set_registry {
            match registry::set_message_file_location(sys, &event_log_key, source.as_str()) {
                Ok(()) => {},
                Err(e) => {
                    return Err(EventLogError::RegistryError(e));
                },
            }
        }

        let handle = match EventLog::register_event_source(sys, &event_log_key, source.as_str()) {
            Ok(h) => h,
            Err(e) => {
                return Err(e);
            },
        };

        let logger = InnerLogger::new(handle, threshold);
        match slot.install(logger) {
            Ok(()) => Ok(()),
            Err(mut rejected) => {
                rejected.release(sys);
                proof {
                    assert(old(sys).live().insert(handle).remove(handle) =~= old(sys).live());
                }
                Err(EventLogError::InitializationFailed)
            },
        }
    }
}

} // verus!
