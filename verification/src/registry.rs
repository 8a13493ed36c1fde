use vstd::prelude::*;
use crate::error::{format_win_error, RegistryError, STATUS_ACCESS_DENIED};
use crate::error::fallback_error_text;
use crate::key::EventLogKey;
use crate::system::EventLogSystem;

verus! {

/// The fixed base configuration path of the host's event subsystem; the
/// channel-and-source subpaths stand under it. Host-specific, not
/// negotiable.
pub fn registry_base_path() -> (r: &'static str)
    ensures
        r@ == "SYSTEM\\CurrentControlSet\\Services\\EventLog"@,
{
    "SYSTEM\\CurrentControlSet\\Services\\EventLog"
}

/// The name of the value that points the host at the message catalog.
pub fn message_file_value_name() -> (r: &'static str)
    ensures
        r@ == "EventMessageFile"@,
{
    "EventMessageFile"
}

/// The subpath a source is configured under: the channel name, a
/// backslash, and the source name.
pub open spec fn subpath_spec(key: EventLogKey, source: Seq<char>) -> Seq<char> {
    key.name_spec() + "\\"@ + source
}

/// Builds the channel-and-source subpath.
pub fn registry_subpath(key: &EventLogKey, source: &str) -> (r: String)
    ensures
        r@ == subpath_spec(*key, source@),
{
    let mut r = key.to_string();
    r.append("\\");
    r.append(source);
    r
}

/// Decision half of the open step: interprets the status the host's open
/// call returned for the base configuration path. Access denial means the
/// caller lacks elevation, and is reported as such rather than as a bare
/// open failure; any other failure carries the rendered status.
pub fn registry_open_outcome(status: u32, system_text: Option<String>) -> (r: Result<
    (),
    RegistryError,
>)
    ensures
        status == 0 <==> r is Ok,
        status == STATUS_ACCESS_DENIED ==> r == Err::<(), RegistryError>(
            RegistryError::AdminPrivilegesRequired,
        ),
        status != 0 && status != STATUS_ACCESS_DENIED ==> (r matches Err(
            RegistryError::FailedToOpen(t),
        ) && t@ == (match system_text {
            Some(s) => s@,
            None => fallback_error_text(),
        })),
{
    if status == 0 {
        Ok(())
    } else if status == STATUS_ACCESS_DENIED {
        Err(RegistryError::AdminPrivilegesRequired)
    } else {
        let text = format_win_error(status, system_text);
        match text {
            Some(t) => Err(RegistryError::FailedToOpen(t)),
            None => Err(RegistryError::AdminPrivilegesRequired),
        }
    }
}

/// Decision half of the write step: interprets the status the host's
/// set-value call returned, in the same way as the open step.
pub fn registry_set_outcome(status: u32, system_text: Option<String>) -> (r: Result<
    (),
    RegistryError,
>)
    ensures
        status == 0 <==> r is Ok,
        status == STATUS_ACCESS_DENIED ==> r == Err::<(), RegistryError>(
            RegistryError::AdminPrivilegesRequired,
        ),
        status != 0 && status != STATUS_ACCESS_DENIED ==> (r matches Err(
            RegistryError::FailedToSet(t),
        ) && t@ == (match system_text {
            Some(s) => s@,
            None => fallback_error_text(),
        })),
{
    if status == 0 {
        Ok(())
    } else if status == STATUS_ACCESS_DENIED {
        Err(RegistryError::AdminPrivilegesRequired)
    } else {
        let text = format_win_error(status, system_text);
        match text {
            Some(t) => Err(RegistryError::FailedToSet(t)),
            None => Err(RegistryError::AdminPrivilegesRequired),
        }
    }
}

/// Points the host's message-file value for the channel and source at the
/// current executable, which carries the message catalog. The write goes
/// under the fixed base path and needs elevation; an unprivileged process
/// is refused and nothing is persisted. Safe to run on every process
/// start: re-running it with the same inputs persists the same state.
pub fn set_message_file_location(
    sys: &mut EventLogSystem,
    key: &EventLogKey,
    source: &str,
) -> (r: Result<(), RegistryError>)
    requires
        old(sys).wf(),
        key.wf(),
    ensures
        final(sys).wf(),
        final(sys).executable_path_spec() == old(sys).executable_path_spec(),
        final(sys).is_privileged() == old(sys).is_privileged(),
        final(sys).issued() == old(sys).issued(),
        final(sys).live() == old(sys).live(),
        final(sys).reported() == old(sys).reported(),
        old(sys).is_privileged() ==> r is Ok && final(sys).registry_map() == old(
            sys,
        ).registry_map().insert(subpath_spec(*key, source@), old(sys).executable_path_spec()),
        !old(sys).is_privileged() ==> r == Err::<(), RegistryError>(
            RegistryError::AdminPrivilegesRequired,
        ) && *final(sys) == *old(sys),
{
    let subpath = registry_subpath(key, source);
    if sys.set_registry_value(subpath) {
        Ok(())
    } else {
        Err(RegistryError::AdminPrivilegesRequired)
    }
}

/// Configuring is idempotent: writing the same message-file location twice
/// persists exactly the state one write persists.
pub proof fn lemma_configuration_idempotent(
    m: Map<Seq<char>, Seq<char>>,
    subpath: Seq<char>,
    path: Seq<char>,
)
    ensures
        m.insert(subpath, path).insert(subpath, path) =~= m.insert(subpath, path),
{
}

} // verus!
