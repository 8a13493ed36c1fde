use vstd::prelude::*;

verus! {

/// The channel key under which events get recorded.
///
/// Most programs should use the default `Application` channel or create a
/// custom one. `Security` is reserved for the host's own auditing: it is
/// accepted as a value, and no validation happens before the registration
/// call — the host itself refuses it there, so registering under it always
/// fails.
#[derive(Debug)]
pub enum EventLogKey {
    /// The default channel; most programs should be using it.
    Application,
    /// Reserved for the host's internals; registering under it always fails.
    Security,
    /// The channel to which device drivers add their sources.
    System,
    /// A custom channel created for an application or service.
    Custom(String),
}

impl EventLogKey {
    /// The canonical name of the channel: the exact name of a predefined
    /// channel, or the custom name itself.
    pub open spec fn name_spec(self) -> Seq<char> {
        match self {
            EventLogKey::Application => "Application"@,
            EventLogKey::Security => "Security"@,
            EventLogKey::System => "System"@,
            EventLogKey::Custom(name) => name@,
        }
    }

    /// Whether the key is well formed: a custom channel name must be
    /// non-empty.
    pub open spec fn wf(self) -> bool {
        self matches EventLogKey::Custom(name) ==> name@.len() > 0
    }

    /// Renders the key as its canonical channel name.
    pub fn to_string(&self) -> (r: String)
        ensures
            r@ == self.name_spec(),
    {
        match self {
            EventLogKey::Application => "Application".to_owned(),
            EventLogKey::Security => "Security".to_owned(),
            EventLogKey::System => "System".to_owned(),
            EventLogKey::Custom(name) => name.clone(),
        }
    }
}

/// `Application` is the default channel, as it is on the host.
impl Default for EventLogKey {
    fn default() -> (r: Self)
        ensures
            r is Application,
    {
        EventLogKey::Application
    }
}

/// Rendering a key round-trips to the channel name, character by character:
/// each predefined key renders to exactly its canonical name, and a custom
/// key renders to exactly the custom name.
pub proof fn lemma_key_canonical_names()
    ensures
        EventLogKey::Application.name_spec()
            =~= seq!['A', 'p', 'p', 'l', 'i', 'c', 'a', 't', 'i', 'o', 'n'],
        EventLogKey::Security.name_spec() =~= seq!['S', 'e', 'c', 'u', 'r', 'i', 't', 'y'],
        EventLogKey::System.name_spec() =~= seq!['S', 'y', 's', 't', 'e', 'm'],
        forall|name: String| (#[trigger] EventLogKey::Custom(name).name_spec()) == name@,
{
    reveal_strlit("Application");
    reveal_strlit("Security");
    reveal_strlit("System");
}

} // verus!
