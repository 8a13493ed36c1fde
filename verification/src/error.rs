use vstd::prelude::*;

verus! {

/// Host status code that denotes success.
pub const STATUS_SUCCESS: u32 = 0;

/// Host status code for an access-denied refusal.
pub const STATUS_ACCESS_DENIED: u32 = 5;

/// Failures while adjusting the host's persistent configuration. The
/// `String` payloads carry a human-readable rendering of the underlying
/// host status code.
#[derive(Debug)]
pub enum RegistryError {
    /// The fixed base configuration path could not be opened.
    FailedToOpen(String),
    /// The message-file value could not be written.
    FailedToSet(String),
    /// The configuration store is writable only by administrators and the
    /// process is not elevated.
    AdminPrivilegesRequired,
}

/// Failures of the event-source lifecycle.
#[derive(Debug)]
pub enum EventLogError {
    /// The host refused to hand out a source handle; carries the host
    /// status code of the refusal.
    RegisterFailed(u32),
    /// The process-wide logger slot was already occupied: a logger can be
    /// installed only once per process.
    InitializationFailed,
    /// A configuration failure that surfaced while configuration was
    /// chained into registration.
    RegistryError(RegistryError),
}

/// The generic text substituted when the host produced no message for a
/// failure status.
pub open spec fn fallback_error_text() -> Seq<char> {
    "failed to format error"@
}

/// Renders a host status code as human-readable text: nothing when the code
/// denotes success, otherwise the host-provided message, or the generic
/// substitute when the host produced none. `system_text` is whatever the
/// host's own message-formatting call handed back; any value of it is
/// accepted, so no status code can make this function panic.
pub fn format_win_error(status: u32, system_text: Option<String>) -> (r: Option<String>)
    ensures
        r is Some <==> status != 0,
        status != 0 ==> r->0@ == (match system_text {
            Some(t) => t@,
            None => fallback_error_text(),
        }),
{
    if status == 0 {
        None
    } else {
        match system_text {
            Some(t) => Some(t),
            None => Some("failed to format error".to_owned()),
        }
    }
}

/// A failure status always renders to text, and the text is non-empty
/// whenever the host supplied a non-empty message or none at all.
pub proof fn lemma_failure_text_nonempty(system_text: Option<Seq<char>>)
    requires
        system_text matches Some(t) ==> t.len() > 0,
    ensures
        (match system_text {
            Some(t) => t,
            None => fallback_error_text(),
        }).len() > 0,
{
    reveal_strlit("failed to format error");
}

} // verus!
