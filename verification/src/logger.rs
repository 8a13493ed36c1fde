use vstd::prelude::*;
use crate::encode::{encode_record, record_units};
use crate::level::Level;
use crate::severity::severity_map_spec;
use crate::severity::severity_map;
use crate::system::{EventLogSystem, EventView};

verus! {

/// The record a logger at the given threshold submits for a message at the
/// given level: zero category, the mapped event type and message
/// identifier, no security-identifier payload, and exactly one terminated
/// message string.
pub open spec fn record_view(level: Level, message: Seq<char>) -> EventView {
    EventView {
        event_type: severity_map_spec(level).0.code_spec(),
        category: 0,
        message_id: severity_map_spec(level).1,
        message: record_units(message),
    }
}

/// The installed logging adapter: the one live source handle it owns and
/// the minimum severity threshold. The handle is never cloned or shared,
/// and is released exactly once.
pub struct InnerLogger {
    /// The source handle the host issued for this adapter.
    pub handle: u64,
    /// The threshold: records more verbose than this level are suppressed.
    pub level: Level,
    /// Whether the handle was already released; set once, never cleared.
    pub released: bool,
}

impl InnerLogger {
    /// An adapter that owns the given handle, not yet released.
    pub fn new(handle: u64, level: Level) -> (r: Self)
        ensures
            r.handle == handle,
            r.level == level,
            !r.released,
    {
        InnerLogger { handle, level, released: false }
    }

    /// Whether a record at `level` passes this adapter's threshold.
    pub fn enabled(&self, level: Level) -> (r: bool)
        ensures
            r == (level.rank() <= self.level.rank()),
    {
        level.passes(self.level)
    }

    /// Submits one record: a record more verbose than the threshold is
    /// suppressed silently; otherwise the severity is mapped, the message
    /// is encoded with explicit termination, and the record is reported
    /// with zero category and exactly one message string. A refused report
    /// leaves the host state and the adapter untouched, and is surfaced in
    /// the returned flag rather than by a panic.
    pub fn log(&self, sys: &mut EventLogSystem, level: Level, message: &str) -> (ok: bool)
        requires
            old(sys).wf(),
        ensures
            final(sys).wf(),
            final(sys).registry_map() == old(sys).registry_map(),
            final(sys).executable_path_spec() == old(sys).executable_path_spec(),
            final(sys).is_privileged() == old(sys).is_privileged(),
            final(sys).issued() == old(sys).issued(),
            final(sys).live() == old(sys).live(),
            !(level.rank() <= self.level.rank()) ==> ok && *final(sys) == *old(sys),
            level.rank() <= self.level.rank() ==> ok == old(sys).live().contains(self.handle),
            level.rank() <= self.level.rank() && ok ==> final(sys).reported() =~= old(
                sys,
            ).reported().push(record_view(level, message@)),
            level.rank() <= self.level.rank() && !ok ==> *final(sys) == *old(sys),
    {
        if !self.enabled(level) {
            return true;
        }
        let units = encode_record(message);
        let (event_type, message_id) = severity_map(level);
        sys.report(self.handle, event_type.code(), 0, message_id, units)
    }

    /// Flushing is a no-op: the adapter holds no client-side buffer.
    pub fn flush(&self) {
    }

    /// Deterministic teardown: deregisters the owned handle exactly once.
    /// The first call releases the handle whatever its outcome at the host;
    /// any later call observes the released mark and performs nothing, so
    /// no path can release twice. A refused deregistration is reported in
    /// the returned flag, not by a panic.
    pub fn release(&mut self, sys: &mut EventLogSystem) -> (deregistered: bool)
        requires
            old(sys).wf(),
        ensures
            final(sys).wf(),
            final(self).handle == old(self).handle,
            final(self).level == old(self).level,
            final(self).released,
            old(self).released ==> !deregistered && *final(sys) == *old(sys),
            !old(self).released ==> {
                &&& deregistered == old(sys).live().contains(old(self).handle)
                &&& final(sys).live() == old(sys).live().remove(old(self).handle)
                &&& final(sys).registry_map() == old(sys).registry_map()
                &&& final(sys).executable_path_spec() == old(sys).executable_path_spec()
                &&& final(sys).is_privileged() == old(sys).is_privileged()
                &&& final(sys).issued() == old(sys).issued()
                &&& final(sys).reported() == old(sys).reported()
            },
    {
        if self.released {
            return false;
        }
        self.released = true;
        sys.deregister_source(self.handle)
    }
}

/// The process-wide logger slot: write-once for the life of the process,
/// read by every log call. There is no uninstall operation.
pub struct LoggerSlot {
    logger: Option<InnerLogger>,
}

impl LoggerSlot {
    /// The adapter the slot holds, if one was installed.
    pub closed spec fn installed(self) -> Option<InnerLogger> {
        self.logger
    }

    /// An empty slot, as every process starts with.
    pub fn new() -> (r: Self)
        ensures
            r.installed() is None,
    {
        LoggerSlot { logger: None }
    }

    /// Installs an adapter as the process-wide logger. Installation happens
    /// at most once: when the slot is already occupied the adapter is
    /// handed back unchanged, and the slot keeps its first occupant.
    pub fn install(&mut self, logger: InnerLogger) -> (r: Result<(), InnerLogger>)
        ensures
            old(self).installed() is None ==> r is Ok && final(self).installed() == Some(logger),
            old(self).installed() is Some ==> r == Err::<(), InnerLogger>(logger) && *final(self)
                == *old(self),
    {
        if self.logger.is_some() {
            Err(logger)
        } else {
            self.logger = Some(logger);
            Ok(())
        }
    }

    /// The installed adapter, read-only.
    pub fn logger(&self) -> (r: Option<&InnerLogger>)
        ensures
            r is Some <==> self.installed() is Some,
            r matches Some(l) ==> self.installed() == Some(*l),
    {
        match &self.logger {
            Some(l) => Some(l),
            None => None,
        }
    }

    /// Hands one record to the installed adapter; with no adapter installed
    /// the record is dropped silently, which is not a failure.
    pub fn log(&self, sys: &mut EventLogSystem, level: Level, message: &str) -> (ok: bool)
        requires
            old(sys).wf(),
        ensures
            final(sys).wf(),
            final(sys).registry_map() == old(sys).registry_map(),
            final(sys).executable_path_spec() == old(sys).executable_path_spec(),
            final(sys).is_privileged() == old(sys).is_privileged(),
            final(sys).issued() == old(sys).issued(),
            final(sys).live() == old(sys).live(),
            self.installed() is None ==> ok && *final(sys) == *old(sys),
            self.installed() matches Some(l) ==> {
                &&& !(level.rank() <= l.level.rank()) ==> ok && *final(sys) == *old(sys)
                &&& level.rank() <= l.level.rank() ==> ok == old(sys).live().contains(l.handle)
                &&& level.rank() <= l.level.rank() && ok ==> final(sys).reported() =~= old(
                    sys,
                ).reported().push(record_view(level, message@))
                &&& level.rank() <= l.level.rank() && !ok ==> *final(sys) == *old(sys)
            },
    {
        match &self.logger {
            Some(l) => l.log(sys, level, message),
            None => true,
        }
    }
}

} // verus!
