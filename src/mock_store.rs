//! The registry of command overrides.
use vstd::prelude::*;

use crate::keyed::{has_key, keyed, keys_distinct, lemma_keyed_at, lemma_keyed_empty, lemma_keyed_push, lemma_keyed_remove, lemma_keyed_update};
use crate::models::{JsonValue, MockConfig, MockSpec};

verus! {

/// The overrides that are in force, by command name, and the storage kept
/// for the handlers that overrides replace.
pub struct MockStore {
    mocks: Vec<(String, MockConfig)>,
    original_handlers: Vec<(String, JsonValue)>,
}

/// What a registry holds: the overrides by command name, and the stored
/// original handlers by command name.
pub struct RegistryState {
    pub mocks: Map<Seq<char>, MockSpec>,
    pub handlers: Map<Seq<char>, JsonValue>,
}

impl RegistryState {
    /// The override in force for `command`.
    pub open spec fn lookup(self, command: Seq<char>) -> Option<MockSpec> {
        if self.mocks.contains_key(command) {
            Some(self.mocks[command])
        } else {
            None
        }
    }

    /// The state after `config` is installed for `command`.
    pub open spec fn with_mock(self, command: Seq<char>, config: MockSpec) -> RegistryState {
        RegistryState { mocks: self.mocks.insert(command, config), handlers: self.handlers }
    }

    /// The state after the override of `command` is removed.
    pub open spec fn without_mock(self, command: Seq<char>) -> RegistryState {
        RegistryState { mocks: self.mocks.remove(command), handlers: self.handlers }
    }

    /// The state after every override is removed.
    pub open spec fn cleared(self) -> RegistryState {
        RegistryState { mocks: Map::empty(), handlers: self.handlers }
    }

    /// The state after every override and every stored handler is removed.
    pub open spec fn reset(self) -> RegistryState {
        RegistryState { mocks: Map::empty(), handlers: Map::empty() }
    }

    /// The state after the original handlers are restored. No handler is
    /// ever stored, so this leaves what a reset leaves.
    pub open spec fn restored(self) -> RegistryState {
        self.reset()
    }

    /// `self` holds nothing that `other` lacks.
    pub open spec fn within(self, other: RegistryState) -> bool {
        &&& self.mocks.submap_of(other.mocks)
        &&& self.handlers.submap_of(other.handlers)
    }
}

/// The entries of a vector of overrides, as mathematical values.
pub open spec fn mock_entries(v: Seq<(String, MockConfig)>) -> Seq<(Seq<char>, MockSpec)> {
    v.map_values(|e: (String, MockConfig)| (e.0@, e.1@))
}

/// The entries of a vector of stored handlers, as mathematical values.
pub open spec fn handler_entries(v: Seq<(String, JsonValue)>) -> Seq<(Seq<char>, JsonValue)> {
    v.map_values(|e: (String, JsonValue)| (e.0@, e.1))
}

fn find_mock(entries: &Vec<(String, MockConfig)>, key: &str) -> (r: Option<usize>)
    ensures
        match r {
            Some(i) => i < entries@.len() && mock_entries(entries@)[i as int].0 == key@,
            None => !has_key(mock_entries(entries@), key@),
        },
{
    let k = key.to_owned();
    let mut i: usize = 0;
    while i < entries.len()
        invariant
            0 <= i <= entries@.len(),
            k@ == key@,
            forall|j: int| 0 <= j < i ==> #[trigger] entries@[j].0@ != key@,
        decreases entries@.len() - i,
    {
        if entries[i].0 == k {
            return Some(i);
        }
        i = i + 1;
    }
    assert forall|j: int| 0 <= j < entries@.len() implies #[trigger] mock_entries(entries@)[j].0 != key@ by {
        assert(entries@[j].0@ != key@);
    }
    None
}

impl MockStore {
    #[verifier::type_invariant]
    spec fn keys_unique(&self) -> bool {
        &&& keys_distinct(mock_entries(self.mocks@))
        &&& keys_distinct(handler_entries(self.original_handlers@))
    }

    /// The overrides in force, by command name.
    pub closed spec fn mocks(&self) -> Map<Seq<char>, MockSpec> {
        keyed(mock_entries(self.mocks@))
    }

    /// The stored original handlers, by command name.
    pub closed spec fn original_handlers(&self) -> Map<Seq<char>, JsonValue> {
        keyed(handler_entries(self.original_handlers@))
    }

    /// What the registry holds.
    pub open spec fn state(&self) -> RegistryState {
        RegistryState { mocks: self.mocks(), handlers: self.original_handlers() }
    }

    /// An empty registry.
    pub fn new() -> (r: MockStore)
        ensures
            r.mocks() == Map::<Seq<char>, MockSpec>::empty(),
            r.original_handlers() == Map::<Seq<char>, JsonValue>::empty(),
    {
        let r = MockStore { mocks: Vec::new(), original_handlers: Vec::new() };
        proof {
            lemma_keyed_empty(mock_entries(r.mocks@));
            lemma_keyed_empty(handler_entries(r.original_handlers@));
        }
        r
    }

    /// Installs `config` as the override of `command`, in place of any earlier one.
    pub fn set_mock(&mut self, command: String, config: MockConfig)
        ensures
            final(self).state() == old(self).state().with_mock(command@, config@),
    {
        proof { use_type_invariant(&*self); }
        let mut entries: Vec<(String, MockConfig)> = Vec::new();
        std::mem::swap(&mut entries, &mut self.mocks);
        let ghost before = mock_entries(entries@);
        let found = find_mock(&entries, command.as_str());
        match found {
            Some(i) => {
                let ghost v = config@;
                entries.set(i, (command, config));
                proof {
                    lemma_keyed_update(before, i as int, v);
                    assert(mock_entries(entries@) =~= before.update(i as int, (before[i as int].0, v)));
                }
            },
            None => {
                let ghost k = command@;
                let ghost v = config@;
                entries.push((command, config));
                proof {
                    lemma_keyed_push(before, k, v);
                    assert(mock_entries(entries@) =~= before.push((k, v)));
                }
            },
        }
        self.mocks = entries;
    }

    /// The override of `command`, if one is in force.
    pub fn get_mock(&self, command: &str) -> (r: Option<&MockConfig>)
        ensures
            match r {
                Some(c) => self.state().lookup(command@) == Some(c@),
                None => self.state().lookup(command@) is None,
            },
    {
        proof { use_type_invariant(&*self); }
        match find_mock(&self.mocks, command) {
            Some(i) => {
                proof { lemma_keyed_at(mock_entries(self.mocks@), i as int); }
                Some(&self.mocks[i].1)
            },
            None => None,
        }
    }

    /// Removes every override; the stored handlers stay.
    pub fn clear_mocks(&mut self)
        ensures
            final(self).state() == old(self).state().cleared(),
    {
        proof { use_type_invariant(&*self); }
        let empty: Vec<(String, MockConfig)> = Vec::new();
        proof { assert(mock_entries(empty@).len() == 0); }
        self.mocks = empty;
        proof { lemma_keyed_empty(mock_entries(self.mocks@)); }
    }

    /// Removes every override and every stored handler.
    pub fn reset_mocks(&mut self)
        ensures
            final(self).state() == old(self).state().reset(),
    {
        proof { use_type_invariant(&*self); }
        let empty: Vec<(String, MockConfig)> = Vec::new();
        let no_handlers: Vec<(String, JsonValue)> = Vec::new();
        proof {
            assert(mock_entries(empty@).len() == 0);
            assert(handler_entries(no_handlers@).len() == 0);
        }
        self.mocks = empty;
        self.original_handlers = no_handlers;
        proof {
            lemma_keyed_empty(mock_entries(self.mocks@));
            lemma_keyed_empty(handler_entries(self.original_handlers@));
        }
    }

    /// Removes every override and restores the original handlers. None is
    /// ever stored, so this leaves what `reset_mocks` leaves.
    pub fn restore_mocks(&mut self)
        ensures
            final(self).state() == old(self).state().restored(),
    {
        self.reset_mocks();
    }

    /// Removes the override of `command`, and hands it back if there was one.
    pub fn remove_mock(&mut self, command: &str) -> (r: Option<MockConfig>)
        ensures
            final(self).state() == old(self).state().without_mock(command@),
            match r {
                Some(c) => old(self).state().lookup(command@) == Some(c@),
                None => old(self).state().lookup(command@) is None,
            },
    {
        proof { use_type_invariant(&*self); }
        match find_mock(&self.mocks, command) {
            Some(i) => {
                let mut entries: Vec<(String, MockConfig)> = Vec::new();
                std::mem::swap(&mut entries, &mut self.mocks);
                let ghost before = mock_entries(entries@);
                proof {
                    lemma_keyed_at(before, i as int);
                    lemma_keyed_remove(before, i as int);
                }
                let (_, config) = entries.remove(i);
                proof {
                    assert(mock_entries(entries@) =~= before.remove(i as int));
                }
                self.mocks = entries;
                Some(config)
            },
            None => {
                proof {
                    assert(self.mocks().remove(command@) =~= self.mocks());
                }
                None
            },
        }
    }

    /// Every override in force, each beside its command name.
    pub fn get_all_mocks(&self) -> (r: &Vec<(String, MockConfig)>)
        ensures
            keys_distinct(mock_entries(r@)),
            keyed(mock_entries(r@)) == self.mocks(),
    {
        proof { use_type_invariant(&*self); }
        &self.mocks
    }
}

} // verus!

verus! {

/// Once `config` is installed for `command`, a lookup of `command` finds
/// exactly `config`, whatever the registry held before.
pub proof fn lemma_set_then_get(st: RegistryState, command: Seq<char>, config: MockSpec)
    ensures
        st.with_mock(command, config).lookup(command) == Some(config),
{
}

/// After the overrides are cleared, a lookup of any command finds nothing,
/// also of one whose override was installed just before.
pub proof fn lemma_clear_forgets(st: RegistryState, command: Seq<char>, config: MockSpec)
    ensures
        st.cleared().lookup(command) is None,
        st.with_mock(command, config).cleared().lookup(command) is None,
{
}

/// A reset never leaves more than a clear of the same registry would.
pub proof fn lemma_reset_within_clear(st: RegistryState)
    ensures
        st.reset().within(st.cleared()),
{
}

} // verus!
