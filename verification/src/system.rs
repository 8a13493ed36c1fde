use vstd::prelude::*;
use crate::error::{EventLogError, STATUS_ACCESS_DENIED};
use crate::key::EventLogKey;

verus! {

/// A record as the host's report entry point received it: the resolved
/// event type, the category, the catalog message identifier, and exactly
/// one terminated wide-character message.
#[derive(Clone, Debug, PartialEq, Eq)]
pub struct ReportedEvent {
    pub event_type: u16,
    pub category: u16,
    pub message_id: u32,
    pub message: Vec<u16>,
}

/// The mathematical value of a reported record.
pub struct EventView {
    pub event_type: u16,
    pub category: u16,
    pub message_id: u32,
    pub message: Seq<u16>,
}

impl View for ReportedEvent {
    type V = EventView;

    open spec fn view(&self) -> EventView {
        EventView {
            event_type: self.event_type,
            category: self.category,
            message_id: self.message_id,
            message: self.message@,
        }
    }
}

/// The persistent message-file configuration as a map: a later write to the
/// same channel-and-source subpath replaces the earlier one.
pub open spec fn registry_map_of(entries: Seq<(String, String)>) -> Map<Seq<char>, Seq<char>>
    decreases entries.len(),
{
    if entries.len() == 0 {
        Map::empty()
    } else {
        registry_map_of(entries.drop_last()).insert(entries.last().0@, entries.last().1@)
    }
}

/// A subpath is configured exactly when some write recorded it.
proof fn lemma_registry_map_domain(entries: Seq<(String, String)>, k: Seq<char>)
    ensures
        registry_map_of(entries).contains_key(k) <==> (exists|i: int|
            0 <= i < entries.len() && entries[i].0@ == k),
    decreases entries.len(),
{
    if entries.len() > 0 {
        lemma_registry_map_domain(entries.drop_last(), k);
        if entries.last().0@ == k {
            assert(entries[entries.len() - 1].0@ == k);
        } else if exists|i: int| 0 <= i < entries.len() && entries[i].0@ == k {
            let i = choose|i: int| 0 <= i < entries.len() && entries[i].0@ == k;
            assert(entries.drop_last()[i] == entries[i]);
        } else if registry_map_of(entries).contains_key(k) {
            let i = choose|i: int| 0 <= i < entries.drop_last().len() && entries.drop_last()[i].0@
                == k;
            assert(entries[i].0@ == k);
        }
    }
}

/// Pushing a value onto a sequence inserts it into the sequence's set.
proof fn lemma_push_to_set(s: Seq<u64>, h: u64)
    ensures
        s.push(h).to_set() =~= s.to_set().insert(h),
{
    assert forall|x: u64| s.push(h).to_set().contains(x) implies s.to_set().insert(h).contains(
        x,
    ) by {
        let j = choose|j: int| 0 <= j < s.push(h).len() && s.push(h)[j] == x;
        if j < s.len() {
            assert(s[j] == x);
        }
    }
    assert forall|x: u64| s.to_set().insert(h).contains(x) implies s.push(h).to_set().contains(
        x,
    ) by {
        if s.contains(x) {
            let j = choose|j: int| 0 <= j < s.len() && s[j] == x;
            assert(s.push(h)[j] == x);
        } else {
            assert(s.push(h)[s.len() as int] == h);
        }
    }
}

/// Removing the entry at an index of a duplicate-free sequence removes
/// exactly that value from the sequence's set.
proof fn lemma_remove_to_set(s: Seq<u64>, i: int)
    requires
        0 <= i < s.len(),
        s.no_duplicates(),
    ensures
        s.remove(i).to_set() =~= s.to_set().remove(s[i]),
        s.remove(i).no_duplicates(),
{
    s.remove_ensures(i);
    assert forall|x: u64| s.remove(i).to_set().contains(x) implies s.to_set().remove(
        s[i],
    ).contains(x) by {
        let j = choose|j: int| 0 <= j < s.remove(i).len() && s.remove(i)[j] == x;
        if j < i {
            assert(s[j] == x);
        } else {
            assert(s[j + 1] == x);
        }
    }
    assert forall|x: u64| s.to_set().remove(s[i]).contains(x) implies s.remove(i).to_set().contains(
        x,
    ) by {
        let j = choose|j: int| 0 <= j < s.len() && s[j] == x;
        if j < i {
            assert(s.remove(i)[j] == x);
        } else {
            assert(j != i);
            assert(s.remove(i)[j - 1] == x);
        }
    }
    assert forall|p: int, q: int|
        0 <= p < q < s.remove(i).len() implies s.remove(i)[p] != s.remove(i)[q] by {
        if q < i {
        } else if p < i {
            assert(s.remove(i)[p] == s[p]);
            assert(s.remove(i)[q] == s[q + 1]);
        } else {
            assert(s.remove(i)[p] == s[p + 1]);
            assert(s.remove(i)[q] == s[q + 1]);
        }
    }
}

/// The host's event-recording subsystem and the process facts it depends
/// on, modeled as explicit state: the persistent message-file
/// configuration, the set of live source handles, and the events reported
/// so far. A thin platform binding performs the real host calls; every
/// decision the backend takes against this state is verified here.
pub struct EventLogSystem {
    registry: Vec<(String, String)>,
    executable_path: String,
    privileged: bool,
    next_handle: u64,
    live_handles: Vec<u64>,
    reported: Vec<ReportedEvent>,
}

impl EventLogSystem {
    /// The message-file configuration: channel-and-source subpath under the
    /// fixed base path, to the recorded message-file path.
    pub closed spec fn registry_map(self) -> Map<Seq<char>, Seq<char>> {
        registry_map_of(self.registry@)
    }

    /// The filesystem path of the current executable, which carries the
    /// message catalog.
    pub closed spec fn executable_path_spec(self) -> Seq<char> {
        self.executable_path@
    }

    /// Whether the process is elevated: the persistent configuration is
    /// writable only by administrators.
    pub closed spec fn is_privileged(self) -> bool {
        self.privileged
    }

    /// The next handle value the host will issue; handles are never reused.
    pub closed spec fn issued(self) -> u64 {
        self.next_handle
    }

    /// The set of live source handles: acquired and not yet released.
    pub closed spec fn live(self) -> Set<u64> {
        self.live_handles@.to_set()
    }

    /// Every event reported so far, oldest first.
    pub closed spec fn reported(self) -> Seq<EventView> {
        self.reported@.map_values(|e: ReportedEvent| e@)
    }

    /// Internal consistency: live handles are pairwise distinct and below
    /// the next handle to be issued.
    pub closed spec fn wf(self) -> bool {
        &&& self.live_handles@.no_duplicates()
        &&& forall|i: int|
            0 <= i < self.live_handles@.len() ==> #[trigger] self.live_handles@[i]
                < self.next_handle
    }

    /// A fresh subsystem: nothing configured, no live handle, nothing
    /// reported.
    pub fn new(executable_path: &str, privileged: bool) -> (r: Self)
        ensures
            r.wf(),
            r.registry_map() == Map::<Seq<char>, Seq<char>>::empty(),
            r.executable_path_spec() == executable_path@,
            r.is_privileged() == privileged,
            r.issued() == 1,
            r.live() == Set::<u64>::empty(),
            r.reported() == Seq::<EventView>::empty(),
    {
        let r = EventLogSystem {
            registry: Vec::new(),
            executable_path: executable_path.to_owned(),
            privileged,
            next_handle: 1,
            live_handles: Vec::new(),
            reported: Vec::new(),
        };
        proof {
            assert(r.live() =~= Set::<u64>::empty());
            assert(r.reported() =~= Seq::<EventView>::empty());
        }
        r
    }

    /// The host's source-registration entry point, modeled. It takes the
    /// source name as an explicitly terminated wide string and hands out a
    /// fresh handle, except that the reserved `Security` channel is refused
    /// with an access-denied status: the host is authoritative on that
    /// policy, and no validation happens before this call.
    pub fn register_source(&mut self, key: &EventLogKey, source_units: &Vec<u16>) -> (r: Result<
        u64,
        EventLogError,
    >)
        requires
            old(self).wf(),
            old(self).issued() < u64::MAX,
            key.wf(),
            source_units@.len() > 0 && source_units@.last() == 0u16,
        ensures
            final(self).wf(),
            final(self).registry_map() == old(self).registry_map(),
            final(self).executable_path_spec() == old(self).executable_path_spec(),
            final(self).is_privileged() == old(self).is_privileged(),
            final(self).reported() == old(self).reported(),
            *key is Security ==> r == Err::<u64, EventLogError>(
                EventLogError::RegisterFailed(STATUS_ACCESS_DENIED),
            ) && *final(self) == *old(self),
            !(*key is Security) ==> {
                &&& r == Ok::<u64, EventLogError>(old(self).issued())
                &&& !old(self).live().contains(old(self).issued())
                &&& final(self).live() == old(self).live().insert(old(self).issued())
                &&& final(self).issued() == old(self).issued() + 1
            },
    {
        match key {
            EventLogKey::Security => Err(EventLogError::RegisterFailed(STATUS_ACCESS_DENIED)),
            _ => {
                let h = self.next_handle;
                self.next_handle = self.next_handle + 1;
                self.live_handles.push(h);
                proof {
                    lemma_push_to_set(old(self).live_handles@, h);
                    assert(old(self).live_handles@.push(h).no_duplicates());
                }
                Ok(h)
            },
        }
    }

    /// The host's deregistration entry point, modeled: releases a live
    /// handle and refuses a handle that is not live. Releasing never
    /// touches anything but the live-handle set.
    pub fn deregister_source(&mut self, handle: u64) -> (ok: bool)
        requires
            old(self).wf(),
        ensures
            final(self).wf(),
            final(self).registry_map() == old(self).registry_map(),
            final(self).executable_path_spec() == old(self).executable_path_spec(),
            final(self).is_privileged() == old(self).is_privileged(),
            final(self).issued() == old(self).issued(),
            final(self).reported() == old(self).reported(),
            ok == old(self).live().contains(handle),
            final(self).live() == old(self).live().remove(handle),
    {
        let found = self.find_live(handle);
        match found {
            Some(i) => {
                self.live_handles.remove(i);
                proof {
                    lemma_remove_to_set(old(self).live_handles@, i as int);
                }
                true
            },
            None => {
                proof {
                    assert(old(self).live().remove(handle) =~= old(self).live());
                }
                false
            },
        }
    }

    /// The host's report entry point, modeled: appends the record when the
    /// handle is live, and refuses a handle that is not. The message must
    /// arrive explicitly terminated, per the host call convention.
    pub fn report(
        &mut self,
        handle: u64,
        event_type: u16,
        category: u16,
        message_id: u32,
        message: Vec<u16>,
    ) -> (ok: bool)
        requires
            old(self).wf(),
            message@.len() > 0 && message@.last() == 0u16,
        ensures
            final(self).wf(),
            final(self).registry_map() == old(self).registry_map(),
            final(self).executable_path_spec() == old(self).executable_path_spec(),
            final(self).is_privileged() == old(self).is_privileged(),
            final(self).issued() == old(self).issued(),
            final(self).live() == old(self).live(),
            ok == old(self).live().contains(handle),
            ok ==> final(self).reported() =~= old(self).reported().push(
                EventView { event_type, category, message_id, message: message@ },
            ),
            !ok ==> *final(self) == *old(self),
    {
        let found = self.find_live(handle);
        match found {
            Some(_) => {
                let event = ReportedEvent { event_type, category, message_id, message };
                self.reported.push(event);
                true
            },
            None => false,
        }
    }

    /// Records a message-file write: the executable's path is persisted
    /// under the given subpath when the process is elevated, and the write
    /// is refused when it is not.
    pub fn set_registry_value(&mut self, subpath: String) -> (ok: bool)
        requires
            old(self).wf(),
        ensures
            final(self).wf(),
            final(self).executable_path_spec() == old(self).executable_path_spec(),
            final(self).is_privileged() == old(self).is_privileged(),
            final(self).issued() == old(self).issued(),
            final(self).live() == old(self).live(),
            final(self).reported() == old(self).reported(),
            ok == old(self).is_privileged(),
            ok ==> final(self).registry_map() == old(self).registry_map().insert(
                subpath@,
                old(self).executable_path_spec(),
            ),
            !ok ==> *final(self) == *old(self),
    {
        if self.privileged {
            let value = self.executable_path.clone();
            self.registry.push((subpath, value));
            proof {
                assert(self.registry@.drop_last() =~= old(self).registry@);
            }
            true
        } else {
            false
        }
    }

    /// Whether a message-file location was recorded under the subpath.
    pub fn registry_written(&self, subpath: &String) -> (r: bool)
        ensures
            r == self.registry_map().contains_key(subpath@),
    {
        let n = self.registry.len();
        let mut j: usize = 0;
        while j < n
            invariant
                n == self.registry@.len(),
                j <= n,
                forall|t: int| 0 <= t < j ==> #[trigger] self.registry@[t].0@ != subpath@,
            decreases n - j,
        {
            if self.registry[j].0 == *subpath {
                proof {
                    lemma_registry_map_domain(self.registry@, subpath@);
                }
                return true;
            }
            j = j + 1;
        }
        proof {
            lemma_registry_map_domain(self.registry@, subpath@);
        }
        false
    }

    /// Whether the handle is currently live.
    pub fn is_live(&self, handle: u64) -> (r: bool)
        ensures
            r == self.live().contains(handle),
    {
        let found = self.find_live(handle);
        found.is_some()
    }

    /// How many source handles are currently live.
    pub fn live_count(&self) -> (n: usize)
        requires
            self.wf(),
        ensures
            n == self.live().len(),
    {
        proof {
            self.live_handles@.unique_seq_to_set();
        }
        self.live_handles.len()
    }

    /// How many events were reported so far.
    pub fn reported_count(&self) -> (n: usize)
        ensures
            n == self.reported().len(),
    {
        self.reported.len()
    }

    /// The event at the given position in the report history.
    pub fn reported_get(&self, i: usize) -> (e: &ReportedEvent)
        requires
            i < self.reported().len(),
        ensures
            e@ == self.reported()[i as int],
    {
        &self.reported[i]
    }

    /// Index of a live handle in the internal table.
    fn find_live(&self, handle: u64) -> (r: Option<usize>)
        ensures
            r matches Some(i) ==> i < self.live_handles@.len() && self.live_handles@[i as int]
                == handle,
            r is Some <==> self.live().contains(handle),
    {
        let n = self.live_handles.len();
        let mut j: usize = 0;
        while j < n
            invariant
                n == self.live_handles@.len(),
                j <= n,
                forall|t: int| 0 <= t < j ==> #[trigger] self.live_handles@[t] != handle,
            decreases n - j,
        {
            if self.live_handles[j] == handle {
                return Some(j);
            }
            j = j + 1;
        }
        None
    }
}

} // verus!
