//! The scheduling service's registry of named, delayed callbacks, modelled
//! as the module observes it.
//!
//! The registry maps a schedule name to the registration held under it: the
//! trigger descriptor, the priority, the identity the callback will run
//! under, and the callback itself. Registering under a name that is already
//! taken overwrites the registration; a malformed descriptor is rejected
//! and leaves the registry untouched.

use vstd::prelude::*;
use crate::origin::Origin;
use crate::schedule::Schedule;

verus! {

/// A callback the scheduler can invoke on the module's behalf.
#[derive(Clone, PartialEq, Eq, Debug)]
pub enum Call {
    /// Look up the price path for the pair and emit the notification.
    LookupPrice { source: Vec<u8>, target: Vec<u8> },
}

/// The mathematical form of a `Call`.
pub ghost enum CallView {
    LookupPrice { source: Seq<u8>, target: Seq<u8> },
}

impl View for Call {
    type V = CallView;

    open spec fn view(&self) -> CallView {
        match self {
            Call::LookupPrice { source, target } => CallView::LookupPrice {
                source: source@,
                target: target@,
            },
        }
    }
}

/// The lookup callback for a pair, at the specification level.
pub open spec fn lookup_call_view(source: Seq<u8>, target: Seq<u8>) -> CallView {
    CallView::LookupPrice { source, target }
}

/// What the scheduler holds under one name.
#[derive(Clone, PartialEq, Eq, Debug)]
pub struct ScheduledEntry {
    /// When the callback fires.
    pub schedule: Schedule,
    /// The dispatch priority the callback runs at.
    pub priority: u8,
    /// The identity the callback runs under.
    pub origin: Origin,
    /// The callback itself.
    pub call: Call,
}

/// The mathematical form of a `ScheduledEntry`.
pub ghost struct EntryView {
    pub schedule: Schedule,
    pub priority: u8,
    pub origin: Origin,
    pub call: CallView,
}

impl View for ScheduledEntry {
    type V = EntryView;

    open spec fn view(&self) -> EntryView {
        EntryView {
            schedule: self.schedule,
            priority: self.priority,
            origin: self.origin,
            call: self.call@,
        }
    }
}

/// A registration, at the specification level.
pub open spec fn entry_view(
    schedule: Schedule,
    priority: u8,
    origin: Origin,
    call: CallView,
) -> EntryView {
    EntryView { schedule, priority, origin, call }
}

/// The scheduler's answer when it refuses a registration.
#[derive(Clone, Copy, PartialEq, Eq, Debug)]
pub enum RegistryError {
    /// The trigger descriptor was not one the scheduler accepts.
    Rejected,
}

/// One named registration as the registry stores it.
#[derive(Clone, PartialEq, Eq, Debug)]
pub struct NamedEntry {
    pub name: Vec<u8>,
    pub entry: ScheduledEntry,
}

/// The registry of named registrations. Abstractly it is a map from
/// schedule names to registrations; concretely it keeps one entry per name.
pub struct SchedulerRegistry {
    entries: Vec<NamedEntry>,
}

/// The map held by a sequence of named registrations; a later entry for a
/// name supersedes an earlier one.
spec fn registrations_of(s: Seq<NamedEntry>) -> Map<Seq<u8>, EntryView>
    decreases s.len(),
{
    if s.len() == 0 {
        Map::empty()
    } else {
        registrations_of(s.drop_last()).insert(s.last().name@, s.last().entry@)
    }
}

/// No two registrations share a name.
spec fn unique_names(s: Seq<NamedEntry>) -> bool {
    forall|i: int, j: int| 0 <= i < j < s.len() ==> s[i].name@ != s[j].name@
}

impl View for SchedulerRegistry {
    type V = Map<Seq<u8>, EntryView>;

    closed spec fn view(&self) -> Map<Seq<u8>, EntryView> {
        registrations_of(self.entries@)
    }
}

/// Byte-for-byte equality of two identifiers.
fn bytes_eq(a: &Vec<u8>, b: &Vec<u8>) -> (r: bool)
    ensures
        r <==> a@ == b@,
{
    if a.len() != b.len() {
        return false;
    }
    let mut i: usize = 0;
    while i < a.len()
        invariant
            a@.len() == b@.len(),
            i <= a@.len(),
            forall|k: int| 0 <= k < i ==> a@[k] == b@[k],
        decreases a@.len() - i,
    {
        if a[i] != b[i] {
            return false;
        }
        i += 1;
    }
    proof {
        assert(a@ =~= b@);
    }
    true
}

/// Appending a registration under a fresh name adds exactly that name to
/// the map and keeps the names unique.
proof fn lemma_registrations_push(s: Seq<NamedEntry>, ne: NamedEntry)
    requires
        unique_names(s),
        forall|k: int| 0 <= k < s.len() ==> s[k].name@ != ne.name@,
    ensures
        registrations_of(s.push(ne)) == registrations_of(s).insert(ne.name@, ne.entry@),
        unique_names(s.push(ne)),
{
    assert(s.push(ne).drop_last() =~= s);
    assert(s.push(ne).last() == ne);
    let sp = s.push(ne);
    assert forall|i: int, j: int| 0 <= i < j < sp.len() implies sp[i].name@ != sp[j].name@ by {
        if j == s.len() {
            assert(sp[i] == s[i]);
        } else {
            assert(sp[i] == s[i]);
            assert(sp[j] == s[j]);
        }
    }
}

/// Replacing the one registration that holds a name with a new registration
/// under the same name updates the map at that name alone and keeps the
/// names unique.
proof fn lemma_registrations_update(s: Seq<NamedEntry>, i: int, ne: NamedEntry)
    requires
        unique_names(s),
        0 <= i < s.len(),
        s[i].name@ == ne.name@,
    ensures
        registrations_of(s.update(i, ne)) == registrations_of(s).insert(ne.name@, ne.entry@),
        unique_names(s.update(i, ne)),
    decreases s.len(),
{
    let su = s.update(i, ne);
    assert(forall|k: int| 0 <= k < su.len() ==> su[k].name@ == s[k].name@);
    if i == s.len() - 1 {
        assert(su.drop_last() =~= s.drop_last());
        assert(su.last() == ne);
        assert(registrations_of(s).insert(ne.name@, ne.entry@) =~= registrations_of(
            s.drop_last(),
        ).insert(ne.name@, ne.entry@));
    } else {
        assert(forall|k: int, l: int|
            0 <= k < l < s.drop_last().len() ==> s.drop_last()[k].name@ != s.drop_last()[l].name@);
        lemma_registrations_update(s.drop_last(), i, ne);
        assert(su.drop_last() =~= s.drop_last().update(i, ne));
        assert(su.last() == s.last());
        assert(s[i].name@ != s.last().name@);
        assert(registrations_of(s.drop_last()).insert(ne.name@, ne.entry@).insert(
            s.last().name@,
            s.last().entry@,
        ) =~= registrations_of(s.drop_last()).insert(s.last().name@, s.last().entry@).insert(
            ne.name@,
            ne.entry@,
        ));
    }
}

/// With unique names, the map's domain is finite, has one name per
/// registration, and holds exactly the registered names.
proof fn lemma_registrations_dom(s: Seq<NamedEntry>)
    requires
        unique_names(s),
    ensures
        registrations_of(s).dom().finite(),
        registrations_of(s).dom().len() == s.len(),
        forall|key: Seq<u8>|
            #[trigger] registrations_of(s).dom().contains(key) <==> (exists|k: int|
                0 <= k < s.len() && s[k].name@ == key),
    decreases s.len(),
{
    if s.len() == 0 {
        assert(registrations_of(s).dom() =~= Set::<Seq<u8>>::empty());
    } else {
        let sd = s.drop_last();
        assert(forall|k: int, l: int| 0 <= k < l < sd.len() ==> sd[k].name@ != sd[l].name@);
        lemma_registrations_dom(sd);
        let last = s.last();
        assert(!registrations_of(sd).dom().contains(last.name@)) by {
            if registrations_of(sd).dom().contains(last.name@) {
                let k = choose|k: int| 0 <= k < sd.len() && sd[k].name@ == last.name@;
                assert(s[k].name@ == s[s.len() - 1].name@);
            }
        }
        assert(registrations_of(s).dom() == registrations_of(sd).dom().insert(last.name@));
        assert forall|key: Seq<u8>| #[trigger]
            registrations_of(s).dom().contains(key) implies (exists|k: int|
            0 <= k < s.len() && s[k].name@ == key) by {
            if key == last.name@ {
                assert(s[s.len() - 1].name@ == key);
            } else {
                let k = choose|k: int| 0 <= k < sd.len() && sd[k].name@ == key;
                assert(s[k].name@ == key);
            }
        }
        assert forall|key: Seq<u8>| (exists|k: int|
            0 <= k < s.len() && s[k].name@ == key) implies #[trigger] registrations_of(
            s,
        ).dom().contains(key) by {
            let k = choose|k: int| 0 <= k < s.len() && s[k].name@ == key;
            if k == s.len() - 1 {
            } else {
                assert(sd[k].name@ == key);
            }
        }
    }
}

/// With unique names, the map holds each registration under its name.
proof fn lemma_registrations_index(s: Seq<NamedEntry>, i: int)
    requires
        unique_names(s),
        0 <= i < s.len(),
    ensures
        registrations_of(s).dom().contains(s[i].name@),
        registrations_of(s)[s[i].name@] == s[i].entry@,
    decreases s.len(),
{
    if i == s.len() - 1 {
    } else {
        let sd = s.drop_last();
        assert(forall|k: int, l: int| 0 <= k < l < sd.len() ==> sd[k].name@ != sd[l].name@);
        lemma_registrations_index(sd, i);
        assert(sd[i] == s[i]);
        assert(s[i].name@ != s.last().name@);
    }
}

impl SchedulerRegistry {
    /// No two registrations share a name.
    pub closed spec fn wf(&self) -> bool {
        unique_names(self.entries@)
    }

    /// An empty registry.
    pub fn new() -> (r: SchedulerRegistry)
        ensures
            r.wf(),
            r@ == Map::<Seq<u8>, EntryView>::empty(),
    {
        SchedulerRegistry { entries: Vec::new() }
    }

    /// Where a name is held, if anywhere.
    fn find_index(&self, name: &Vec<u8>) -> (r: Option<usize>)
        ensures
            match r {
                Some(i) => 0 <= i < self.entries@.len() && self.entries@[i as int].name@
                    == name@,
                None => forall|k: int| 0 <= k < self.entries@.len() ==> self.entries@[k].name@
                    != name@,
            },
    {
        let mut i: usize = 0;
        while i < self.entries.len()
            invariant
                i <= self.entries@.len(),
                forall|k: int| 0 <= k < i ==> self.entries@[k].name@ != name@,
            decreases self.entries@.len() - i,
        {
            if bytes_eq(&self.entries[i].name, name) {
                return Some(i);
            }
            i += 1;
        }
        None
    }

    /// Registers `call` under `name`, to fire as `schedule` describes, at
    /// `priority`, under the identity `origin`.
    ///
    /// A well-formed descriptor is always accepted; if the name is already
    /// taken, the new registration overwrites the old one. A malformed
    /// descriptor is rejected and the registry is left exactly as it was.
    pub fn schedule_named(
        &mut self,
        name: Vec<u8>,
        schedule: Schedule,
        priority: u8,
        origin: Origin,
        call: Call,
    ) -> (r: Result<(), RegistryError>)
        requires
            old(self).wf(),
        ensures
            final(self).wf(),
            schedule.valid() ==> r == Ok::<(), RegistryError>(())
                && final(self)@ == old(self)@.insert(
                    name@,
                    entry_view(schedule, priority, origin, call@),
                ),
            !schedule.valid() ==> r == Err::<(), RegistryError>(RegistryError::Rejected)
                && *final(self) == *old(self),
    {
        if !schedule.is_well_formed() {
            return Err(RegistryError::Rejected);
        }
        let named = NamedEntry { name, entry: ScheduledEntry { schedule, priority, origin, call } };
        let idx = self.find_index(&named.name);
        match idx {
            Some(i) => {
                proof {
                    lemma_registrations_update(self.entries@, i as int, named);
                }
                self.entries.set(i, named);
            },
            None => {
                proof {
                    lemma_registrations_push(self.entries@, named);
                }
                self.entries.push(named);
            },
        }
        Ok(())
    }

    /// The registration held under `name`, if any.
    pub fn get(&self, name: &Vec<u8>) -> (r: Option<&ScheduledEntry>)
        requires
            self.wf(),
        ensures
            self@.dom().contains(name@) ==> (r matches Some(e) && e@ == self@[name@]),
            !self@.dom().contains(name@) ==> r is None,
    {
        proof {
            lemma_registrations_dom(self.entries@);
        }
        match self.find_index(name) {
            Some(i) => {
                proof {
                    lemma_registrations_index(self.entries@, i as int);
                }
                Some(&self.entries[i].entry)
            },
            None => None,
        }
    }

    /// How many names are registered.
    pub fn count(&self) -> (r: usize)
        requires
            self.wf(),
        ensures
            r as nat == self@.dom().len(),
    {
        proof {
            lemma_registrations_dom(self.entries@);
        }
        self.entries.len()
    }
}

/// Registering twice under one name leaves a single registration under that
/// name, holding the later entry: re-scheduling a pair overwrites its
/// earlier registration instead of duplicating it.
pub proof fn lemma_reschedule_overwrites(
    m: Map<Seq<u8>, EntryView>,
    name: Seq<u8>,
    first: EntryView,
    second: EntryView,
)
    ensures
        m.insert(name, first).insert(name, second) == m.insert(name, second),
        m.insert(name, first).insert(name, second)[name] == second,
        m.insert(name, first).insert(name, second).dom() == m.dom().insert(name),
{
    assert(m.insert(name, first).insert(name, second) =~= m.insert(name, second));
    assert(m.insert(name, first).insert(name, second).dom() =~= m.dom().insert(name));
}

} // verus!
