//! Source participant identities and the per-close vote map.
//!
//! A [`SourceStates`] value collects, during one epoch close, the snapshot
//! token each participating source contributed, keyed by the participant's
//! [`NodeHandle`]. Insertion order is irrelevant: the mathematical view of
//! the collection is a [`Map`] from handle identity to state.

use vstd::prelude::*;

verus! {

/// Identity of a source participant: an optional numeric namespace and a
/// textual id. Fixed when the source is constructed.
#[derive(Clone, Debug, Eq, Hash)]
pub struct NodeHandle {
    pub ns: Option<u16>,
    pub id: String,
}

/// Mathematical identity of a [`NodeHandle`]: the namespace and the id's
/// character sequence.
pub struct NodeHandleV {
    pub ns: Option<u16>,
    pub id: Seq<char>,
}

impl View for NodeHandle {
    type V = NodeHandleV;

    open spec fn view(&self) -> NodeHandleV {
        NodeHandleV { ns: self.ns, id: self.id@ }
    }
}

impl NodeHandle {
    pub fn new(ns: Option<u16>, id: String) -> (handle: NodeHandle)
        ensures
            handle@ == (NodeHandleV { ns, id: id@ }),
    {
        NodeHandle { ns, id }
    }
}

impl PartialEq for NodeHandle {
    fn eq(&self, other: &Self) -> (r: bool) {
        let ns_eq = match (self.ns, other.ns) {
            (Some(a), Some(b)) => a == b,
            (None, None) => true,
            _ => false,
        };
        ns_eq && self.id == other.id
    }
}

impl vstd::std_specs::cmp::PartialEqSpecImpl for NodeHandle {
    open spec fn obeys_eq_spec() -> bool {
        true
    }

    open spec fn eq_spec(&self, other: &Self) -> bool {
        self@ == other@
    }
}

/// The snapshot token a source contributes when voting on an epoch close.
#[derive(Clone, Debug, PartialEq, Eq)]
pub enum SourceState {
    /// The source has yet to ingest anything.
    NotStarted,
    /// The source can resume from the carried token after a restart.
    Restartable(Vec<u8>),
    /// The source cannot be safely resumed.
    NonRestartable,
}

/// Mathematical value of a [`SourceState`].
pub enum SourceStateV {
    NotStarted,
    Restartable(Seq<u8>),
    NonRestartable,
}

impl View for SourceState {
    type V = SourceStateV;

    open spec fn view(&self) -> SourceStateV {
        match self {
            SourceState::NotStarted => SourceStateV::NotStarted,
            SourceState::Restartable(token) => SourceStateV::Restartable(token@),
            SourceState::NonRestartable => SourceStateV::NonRestartable,
        }
    }
}

/// The map described by a sequence of key-value entries, later entries
/// overriding earlier ones.
spec fn map_of(entries: Seq<(NodeHandle, SourceState)>) -> Map<NodeHandleV, SourceStateV>
    decreases entries.len(),
{
    if entries.len() == 0 {
        Map::empty()
    } else {
        map_of(entries.drop_last()).insert(entries.last().0@, entries.last().1@)
    }
}

/// No two entries carry the same handle identity.
spec fn unique_keys(entries: Seq<(NodeHandle, SourceState)>) -> bool {
    forall|i: int, j: int|
        0 <= i < j < entries.len() ==> entries[i].0@ != entries[j].0@
}

proof fn lemma_map_of_contains(entries: Seq<(NodeHandle, SourceState)>, k: NodeHandleV)
    ensures
        map_of(entries).contains_key(k) <==> exists|i: int|
            0 <= i < entries.len() && entries[i].0@ == k,
    decreases entries.len(),
{
    if entries.len() > 0 {
        lemma_map_of_contains(entries.drop_last(), k);
        if map_of(entries).contains_key(k) {
            if entries.last().0@ != k {
                let i = choose|i: int|
                    0 <= i < entries.drop_last().len() && entries.drop_last()[i].0@ == k;
                assert(entries[i].0@ == k);
            }
        }
        if exists|i: int| 0 <= i < entries.len() && entries[i].0@ == k {
            let i = choose|i: int| 0 <= i < entries.len() && entries[i].0@ == k;
            if i < entries.len() - 1 {
                assert(entries.drop_last()[i].0@ == k);
            }
        }
    }
}

proof fn lemma_map_of_index(entries: Seq<(NodeHandle, SourceState)>, i: int)
    requires
        unique_keys(entries),
        0 <= i < entries.len(),
    ensures
        map_of(entries).contains_key(entries[i].0@),
        map_of(entries)[entries[i].0@] == entries[i].1@,
    decreases entries.len(),
{
    lemma_map_of_contains(entries, entries[i].0@);
    if i < entries.len() - 1 {
        assert(entries.drop_last()[i] == entries[i]);
        lemma_map_of_index(entries.drop_last(), i);
        assert(entries[i].0@ != entries.last().0@);
    }
}

proof fn lemma_map_of_len(entries: Seq<(NodeHandle, SourceState)>)
    requires
        unique_keys(entries),
    ensures
        map_of(entries).dom().finite(),
        map_of(entries).len() == entries.len(),
    decreases entries.len(),
{
    if entries.len() == 0 {
        assert(map_of(entries).dom() =~= Set::<NodeHandleV>::empty());
    } else {
        let prefix = entries.drop_last();
        lemma_map_of_len(prefix);
        lemma_map_of_contains(prefix, entries.last().0@);
        assert(forall|i: int| 0 <= i < prefix.len() ==> prefix[i] == entries[i]);
        assert(!map_of(prefix).contains_key(entries.last().0@));
        vstd::set::axiom_set_insert_len(map_of(prefix).dom(), entries.last().0@);
        assert(map_of(entries).dom() =~= map_of(prefix).dom().insert(entries.last().0@));
    }
}

/// Replacing the entry at `i` with one carrying the same handle identity
/// updates the map at that key.
proof fn lemma_map_of_update(
    entries: Seq<(NodeHandle, SourceState)>,
    i: int,
    entry: (NodeHandle, SourceState),
)
    requires
        unique_keys(entries),
        0 <= i < entries.len(),
        entries[i].0@ == entry.0@,
    ensures
        map_of(entries.update(i, entry)) == map_of(entries).insert(entry.0@, entry.1@),
    decreases entries.len(),
{
    let updated = entries.update(i, entry);
    if i == entries.len() - 1 {
        assert(updated.drop_last() =~= entries.drop_last());
        assert(updated.last() == entry);
        assert(map_of(updated) =~= map_of(entries).insert(entry.0@, entry.1@));
    } else {
        assert(updated.drop_last() =~= entries.drop_last().update(i, entry));
        lemma_map_of_update(entries.drop_last(), i, entry);
        assert(updated.last() == entries.last());
        assert(entries[i].0@ != entries.last().0@);
        assert(map_of(updated) =~= map_of(entries).insert(entry.0@, entry.1@));
    }
}

/// The votes collected during one epoch close: for each participating
/// source, the state it contributed, keyed by the source's handle.
#[derive(Debug)]
pub struct SourceStates {
    entries: Vec<(NodeHandle, SourceState)>,
}

impl View for SourceStates {
    type V = Map<NodeHandleV, SourceStateV>;

    closed spec fn view(&self) -> Map<NodeHandleV, SourceStateV> {
        map_of(self.entries@)
    }
}

impl SourceStates {
    #[verifier::type_invariant]
    spec fn wf(self) -> bool {
        unique_keys(self.entries@)
    }

    /// An empty collection.
    pub fn new() -> (states: SourceStates)
        ensures
            states@ == Map::<NodeHandleV, SourceStateV>::empty(),
    {
        SourceStates { entries: Vec::new() }
    }

    /// Records `state` for `handle`, replacing any state previously
    /// recorded for the same handle.
    pub fn insert(&mut self, handle: NodeHandle, state: SourceState)
        ensures
            final(self)@ == old(self)@.insert(handle@, state@),
    {
        proof {
            use_type_invariant(&*self);
        }
        let mut entries: Vec<(NodeHandle, SourceState)> = Vec::new();
        core::mem::swap(&mut entries, &mut self.entries);
        let ghost before = entries@;
        let n = entries.len();
        let mut i: usize = 0;
        let mut found: Option<usize> = None;
        while i < n
            invariant
                n == entries.len(),
                entries@ == before,
                match found {
                    Some(at) => 0 <= at < i <= n && before[at as int].0@ == handle@,
                    None => forall|j: int| 0 <= j < i ==> before[j].0@ != handle@,
                },
                found is Some ==> i == n,
            decreases n - i,
        {
            if entries[i].0 == handle {
                found = Some(i);
                i = n;
            } else {
                i += 1;
            }
        }
        match found {
            Some(at) => {
                entries.set(at, (handle, state));
                proof {
                    lemma_map_of_update(before, at as int, entries@[at as int]);
                }
            }
            None => {
                entries.push((handle, state));
                proof {
                    assert(entries@.drop_last() =~= before);
                }
            }
        }
        self.entries = entries;
    }

    /// The state recorded for `handle`, if any.
    pub fn get(&self, handle: &NodeHandle) -> (r: Option<&SourceState>)
        ensures
            match r {
                Some(state) => self@.contains_key(handle@) && state@ == self@[handle@],
                None => !self@.contains_key(handle@),
            },
    {
        proof {
            use_type_invariant(self);
        }
        let n = self.entries.len();
        let mut i: usize = 0;
        while i < n
            invariant
                self.wf(),
                n == self.entries.len(),
                forall|j: int| 0 <= j < i ==> self.entries@[j].0@ != handle@,
            decreases n - i,
        {
            if self.entries[i].0 == *handle {
                proof {
                    lemma_map_of_index(self.entries@, i as int);
                }
                return Some(&self.entries[i].1);
            }
            i += 1;
        }
        proof {
            lemma_map_of_contains(self.entries@, handle@);
        }
        None
    }

    /// How many sources have contributed a state.
    pub fn len(&self) -> (n: usize)
        ensures
            n == self@.len(),
    {
        proof {
            use_type_invariant(self);
            lemma_map_of_len(self.entries@);
        }
        self.entries.len()
    }

    /// Whether every contributed state is restartable; the loop behind
    /// [`is_restartable`].
    fn all_restartable(&self) -> (r: bool)
        ensures
            r == spec_is_restartable(self@),
    {
        proof {
            use_type_invariant(self);
        }
        let n = self.entries.len();
        let mut i: usize = 0;
        while i < n
            invariant
                self.wf(),
                n == self.entries.len(),
                forall|j: int| 0 <= j < i ==> !(self.entries@[j].1@ is NonRestartable),
            decreases n - i,
        {
            if matches!(self.entries[i].1, SourceState::NonRestartable) {
                proof {
                    lemma_map_of_index(self.entries@, i as int);
                }
                return false;
            }
            i += 1;
        }
        proof {
            assert forall|k: NodeHandleV| self@.contains_key(k) implies !(self@[k]
                is NonRestartable) by {
                lemma_map_of_contains(self.entries@, k);
                let j = choose|j: int|
                    0 <= j < self.entries@.len() && self.entries@[j].0@ == k;
                lemma_map_of_index(self.entries@, j);
            }
        }
        true
    }
}

/// True iff no collected source state is `NonRestartable`; `NotStarted` and
/// `Restartable` both qualify.
pub open spec fn spec_is_restartable(states: Map<NodeHandleV, SourceStateV>) -> bool {
    forall|k: NodeHandleV| states.contains_key(k) ==> !(states[k] is NonRestartable)
}

/// True iff every source can resume from its collected state: no
/// participant reported `NonRestartable`. Gates the issuance of a
/// checkpoint writer when an epoch is persisted.
pub fn is_restartable(source_states: &SourceStates) -> (r: bool)
    ensures
        r == spec_is_restartable(source_states@),
{
    source_states.all_restartable()
}

} // verus!
