//! The identifier registries: key-to-factory stores, one keyed by entity
//! identifier and one by integer grid-cell value.
//!
//! Both are simple associative containers with a replace-on-duplicate-key
//! policy: within a registry each key maps to at most one entry, and
//! re-registering a key replaces the prior entry, so the last
//! registration wins. Entries are never removed.

use vstd::prelude::*;

use crate::factory::{
    EntityFieldStrategy, ErasedEntityFactory, ErasedIntCellFactory, IntCellFieldStrategy,
    PhantomLdtkEntityTrait, PhantomLdtkIntCellTrait,
};
use std::collections::HashMap;

verus! {

broadcast use vstd::std_specs::hash::group_hash_axioms;

/// The store view of a sequence of keyed entries, later entries winning.
spec fn entity_entries_model(entries: Seq<(String, ErasedEntityFactory)>) -> Map<
    Seq<char>,
    Seq<EntityFieldStrategy>,
>
    decreases entries.len(),
{
    if entries.len() == 0 {
        Map::empty()
    } else {
        entity_entries_model(entries.drop_last()).insert(
            entries.last().0@,
            entries.last().1.plan(),
        )
    }
}

/// Associates entity identifiers with the factories registered for them.
/// Keys are held unique, so its view is a map from identifier to the
/// registered factory's plan.
pub struct LdtkEntityMap {
    entries: Vec<(String, ErasedEntityFactory)>,
}

impl View for LdtkEntityMap {
    type V = Map<Seq<char>, Seq<EntityFieldStrategy>>;

    closed spec fn view(&self) -> Map<Seq<char>, Seq<EntityFieldStrategy>> {
        entity_entries_model(self.entries@)
    }
}

proof fn lemma_entity_model_present(entries: Seq<(String, ErasedEntityFactory)>, i: int)
    requires
        0 <= i < entries.len(),
        forall|j: int| i < j < entries.len() ==> entries[j].0@ != entries[i].0@,
    ensures
        entity_entries_model(entries).contains_key(entries[i].0@),
        entity_entries_model(entries)[entries[i].0@] == entries[i].1.plan(),
    decreases entries.len(),
{
    if i < entries.len() - 1 {
        lemma_entity_model_present(entries.drop_last(), i);
    }
}

proof fn lemma_entity_model_absent(entries: Seq<(String, ErasedEntityFactory)>, key: Seq<char>)
    requires
        forall|j: int| 0 <= j < entries.len() ==> entries[j].0@ != key,
    ensures
        !entity_entries_model(entries).contains_key(key),
    decreases entries.len(),
{
    if entries.len() > 0 {
        lemma_entity_model_absent(entries.drop_last(), key);
    }
}

proof fn lemma_entity_model_update(
    entries: Seq<(String, ErasedEntityFactory)>,
    i: int,
    entry: (String, ErasedEntityFactory),
)
    requires
        0 <= i < entries.len(),
        entry.0@ == entries[i].0@,
        forall|j: int| i < j < entries.len() ==> entries[j].0@ != entries[i].0@,
    ensures
        entity_entries_model(entries.update(i, entry)) == entity_entries_model(entries).insert(
            entry.0@,
            entry.1.plan(),
        ),
    decreases entries.len(),
{
    let updated = entries.update(i, entry);
    if i == entries.len() - 1 {
        assert(updated.drop_last() =~= entries.drop_last());
        assert(entity_entries_model(updated) =~= entity_entries_model(entries).insert(
            entry.0@,
            entry.1.plan(),
        ));
    } else {
        lemma_entity_model_update(entries.drop_last(), i, entry);
        assert(updated.drop_last() =~= entries.drop_last().update(i, entry));
        assert(updated.last() == entries.last());
        assert(entity_entries_model(updated) =~= entity_entries_model(entries).insert(
            entry.0@,
            entry.1.plan(),
        ));
    }
}

proof fn lemma_entity_model_dom_len(entries: Seq<(String, ErasedEntityFactory)>)
    requires
        forall|i: int, j: int|
            0 <= i < j < entries.len() ==> entries[i].0@ != entries[j].0@,
    ensures
        entity_entries_model(entries).dom().finite(),
        entity_entries_model(entries).dom().len() == entries.len(),
    decreases entries.len(),
{
    if entries.len() > 0 {
        lemma_entity_model_dom_len(entries.drop_last());
        lemma_entity_model_absent(entries.drop_last(), entries.last().0@);
    }
}

impl LdtkEntityMap {
    /// Keys of distinct entries are distinct, so lookup is unambiguous.
    pub closed spec fn wf(&self) -> bool {
        forall|i: int, j: int|
            0 <= i < j < self.entries@.len() ==> self.entries@[i].0@ != self.entries@[j].0@
    }

    /// An empty registry.
    pub fn new() -> (r: LdtkEntityMap)
        ensures
            r@ == Map::<Seq<char>, Seq<EntityFieldStrategy>>::empty(),
            r.wf(),
    {
        LdtkEntityMap { entries: Vec::new() }
    }

    /// The number of identifiers registered.
    pub fn len(&self) -> (n: usize)
        requires
            self.wf(),
        ensures
            self@.dom().finite(),
            n == self@.dom().len(),
    {
        proof {
            lemma_entity_model_dom_len(self.entries@);
        }
        self.entries.len()
    }

    /// Registers `factory` for `identifier`, replacing any prior entry
    /// under that identifier: the last registration wins.
    pub fn insert(&mut self, identifier: String, factory: ErasedEntityFactory)
        requires
            old(self).wf(),
        ensures
            final(self).wf(),
            final(self)@ == old(self)@.insert(identifier@, factory.plan()),
    {
        let n = self.entries.len();
        let mut i: usize = 0;
        while i < n
            invariant
                self.entries@ == old(self).entries@,
                old(self).wf(),
                n == self.entries@.len(),
                i <= n,
                forall|j: int| 0 <= j < i ==> self.entries@[j].0@ != identifier@,
            decreases n - i,
        {
            if self.entries[i].0 == identifier {
                proof {
                    assert forall|j: int|
                        i < j < self.entries@.len() implies self.entries@[j].0@
                        != self.entries@[i as int].0@ by {
                        assert(old(self).wf());
                    }
                    lemma_entity_model_update(
                        self.entries@,
                        i as int,
                        (identifier, factory),
                    );
                }
                self.entries[i] = (identifier, factory);
                proof {
                    assert forall|p: int, q: int|
                        0 <= p < q < self.entries@.len() implies self.entries@[p].0@
                        != self.entries@[q].0@ by {
                        assert(old(self).entries@[p].0@ != old(self).entries@[q].0@);
                    }
                }
                return;
            }
            i = i + 1;
        }
        proof {
            lemma_entity_model_absent(self.entries@, identifier@);
        }
        self.entries.push((identifier, factory));
        proof {
            assert(self.entries@.drop_last() =~= old(self).entries@);
            assert(self@ =~= old(self)@.insert(identifier@, factory.plan()));
        }
    }

    /// The factory registered for `identifier`, if any.
    pub fn get(&self, identifier: &String) -> (r: Option<&ErasedEntityFactory>)
        requires
            self.wf(),
        ensures
            match r {
                Some(f) => self@.contains_key(identifier@) && f.plan() == self@[identifier@],
                None => !self@.contains_key(identifier@),
            },
    {
        let n = self.entries.len();
        let mut i: usize = 0;
        while i < n
            invariant
                self.wf(),
                n == self.entries@.len(),
                i <= n,
                forall|j: int| 0 <= j < i ==> self.entries@[j].0@ != identifier@,
            decreases n - i,
        {
            if self.entries[i].0 == *identifier {
                proof {
                    lemma_entity_model_present(self.entries@, i as int);
                }
                return Some(&self.entries[i].1);
            }
            i = i + 1;
        }
        proof {
            lemma_entity_model_absent(self.entries@, identifier@);
        }
        None
    }
}

/// Registering under the same key twice leaves exactly one entry under
/// that key, and it is the second registration's: the last write wins,
/// whatever was registered first.
pub proof fn lemma_register_last_wins<K, V>(registry: Map<K, V>, key: K, first: V, second: V)
    ensures
        registry.insert(key, first).insert(key, second) == registry.insert(key, second),
        registry.insert(key, first).insert(key, second).dom() == registry.dom().insert(key),
{
    assert(registry.insert(key, first).insert(key, second) =~= registry.insert(key, second));
    assert(registry.insert(key, second).dom() =~= registry.dom().insert(key));
}

/// Associates integer grid-cell values with the factories registered for
/// them. Its view is a map from cell value to the registered factory's
/// plan.
pub struct LdtkIntCellMap {
    entries: HashMap<i32, ErasedIntCellFactory>,
}

impl View for LdtkIntCellMap {
    type V = Map<i32, Seq<IntCellFieldStrategy>>;

    closed spec fn view(&self) -> Map<i32, Seq<IntCellFieldStrategy>> {
        self.entries@.map_values(|f: ErasedIntCellFactory| f.plan())
    }
}

impl LdtkIntCellMap {
    /// An empty registry.
    pub fn new() -> (r: LdtkIntCellMap)
        ensures
            r@ == Map::<i32, Seq<IntCellFieldStrategy>>::empty(),
    {
        let r = LdtkIntCellMap { entries: HashMap::new() };
        proof {
            assert(r@ =~= Map::<i32, Seq<IntCellFieldStrategy>>::empty());
        }
        r
    }

    /// The number of grid-cell values registered.
    pub fn len(&self) -> (n: usize)
        ensures
            self@.dom().finite(),
            n == self@.dom().len(),
    {
        proof {
            assert(self@.dom() =~= self.entries@.dom());
        }
        self.entries.len()
    }

    /// Registers `factory` for `value`, replacing any prior entry under
    /// that value: the last registration wins.
    pub fn insert(&mut self, value: i32, factory: ErasedIntCellFactory)
        ensures
            final(self)@ == old(self)@.insert(value, factory.plan()),
    {
        self.entries.insert(value, factory);
        proof {
            assert(self@ =~= old(self)@.insert(value, factory.plan()));
        }
    }

    /// The factory registered for `value`, if any.
    pub fn get(&self, value: i32) -> (r: Option<&ErasedIntCellFactory>)
        ensures
            match r {
                Some(f) => self@.contains_key(value) && f.plan() == self@[value],
                None => !self@.contains_key(value),
            },
    {
        let r = self.entries.get(&value);
        proof {
            assert(self@.dom() =~= self.entries@.dom());
        }
        r
    }
}

} // verus!
