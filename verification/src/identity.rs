//! Identifiers: that each stands for one thing, and the order in which a
//! table yields them.
//!
//! Entities, components and assets are each named by a 64-bit identifier
//! that is unique within its graph. Components of different kinds live in
//! different tables, and so do assets, so an identifier is unique when no two
//! tables of components hold it, no two tables of assets hold it, and no two
//! entities carry it.

use vstd::prelude::*;
use std::collections::{BTreeMap, BTreeSet};
use vstd::std_specs::btree::increasing_seq;
use vstd::std_specs::cmp::OrdSpec;
use crate::scene::{AssetId, AssetRegistry, ComponentId, ComponentTable, EntityId, SceneGraph};

verus! {

/// In a sequence of identifiers that increases, an earlier one is less than a
/// later one.
pub(crate) proof fn lemma_increasing_identifiers(ids: Seq<u64>, a: int, b: int)
    requires
        increasing_seq(ids),
        0 <= a < b < ids.len(),
    ensures
        ids[a] < ids[b],
{
    assert(ids[a].cmp_spec(&ids[b]) is Less);
}

/// The identifiers of `table` in the order in which the table is walked:
/// each once, from the least to the greatest.
pub fn identifiers<T>(table: &BTreeMap<u64, T>) -> (ids: Vec<u64>)
    ensures
        forall|a: int, b: int| 0 <= a < b < ids@.len() ==> ids@[a] < ids@[b],
        forall|j: int| 0 <= j < ids@.len() ==> table@.contains_key(#[trigger] ids@[j]),
        forall|id: u64| table@.contains_key(id) ==> ids@.contains(id),
        ids@.len() == table@.dom().len(),
{
    let mut ids: Vec<u64> = Vec::new();
    for entry in it: table.iter()
        invariant
            ids@.len() == it.index(),
            forall|j: int| 0 <= j < it.index() ==> ids@[j] == *(#[trigger] it.seq()[j]).0,
            forall|j: int| 0 <= j < ids@.len() ==> table@.contains_key(#[trigger] ids@[j]),
            forall|a: int, b: int| 0 <= a < b < ids@.len() ==> ids@[a] < ids@[b],
            increasing_seq(it.seq().map_values(|kv: (&u64, &T)| *kv.0)),
    {
        assert(table@.contains_key(*entry.0));
        proof {
            let keys = it.seq().map_values(|kv: (&u64, &T)| *kv.0);
            assert forall|a: int| 0 <= a < it.index() implies ids@[a] < *entry.0 by {
                assert(keys[a] == ids@[a]);
                assert(keys[it.index()] == *entry.0);
                lemma_increasing_identifiers(keys, a, it.index());
            }
        }
        ids.push(*entry.0);
    }
    ids
}

/// Whether no identifier is held by both `left` and `right`.
fn share_no_identifier<A, B>(left: &BTreeMap<u64, A>, right: &BTreeMap<u64, B>) -> (apart: bool)
    ensures
        apart == forall|id: u64|
            !(#[trigger] left@.contains_key(id) && #[trigger] right@.contains_key(id)),
{
    for entry in it: left.iter()
        invariant
            forall|j: int|
                0 <= j < it.index() ==> !right@.contains_key(*(#[trigger] it.seq()[j]).0),
    {
        if right.contains_key(entry.0) {
            assert(left@.contains_key(*entry.0));
            return false;
        }
    }
    true
}

impl ComponentTable {
    /// The number of tables that hold a component `id`.
    pub open spec fn holders(self, id: ComponentId) -> nat {
        (if self.transforms@.contains_key(id) { 1nat } else { 0nat })
        + (if self.geometries@.contains_key(id) { 1nat } else { 0nat })
        + (if self.materials@.contains_key(id) { 1nat } else { 0nat })
        + (if self.layers@.contains_key(id) { 1nat } else { 0nat })
        + (if self.metadata@.contains_key(id) { 1nat } else { 0nat })
    }

    /// Whether every component identifier stands for one component: no two
    /// tables hold the same identifier.
    pub open spec fn ids_distinct(self) -> bool {
        forall|id: ComponentId|
            #![trigger self.transforms@.contains_key(id)]
            #![trigger self.geometries@.contains_key(id)]
            #![trigger self.materials@.contains_key(id)]
            #![trigger self.layers@.contains_key(id)]
            #![trigger self.metadata@.contains_key(id)]
            self.holders(id) <= 1
    }

    /// Whether every component identifier stands for one component.
    pub fn has_distinct_ids(&self) -> (distinct: bool)
        ensures
            distinct == self.ids_distinct(),
    {
        share_no_identifier(&self.transforms, &self.geometries)
            && share_no_identifier(&self.transforms, &self.materials)
            && share_no_identifier(&self.transforms, &self.layers)
            && share_no_identifier(&self.transforms, &self.metadata)
            && share_no_identifier(&self.geometries, &self.materials)
            && share_no_identifier(&self.geometries, &self.layers)
            && share_no_identifier(&self.geometries, &self.metadata)
            && share_no_identifier(&self.materials, &self.layers)
            && share_no_identifier(&self.materials, &self.metadata)
            && share_no_identifier(&self.layers, &self.metadata)
    }
}

impl AssetRegistry {
    /// The number of tables that hold an asset `id`.
    pub open spec fn holders(self, id: AssetId) -> nat {
        (if self.meshes@.contains_key(id) { 1nat } else { 0nat })
        + (if self.materials@.contains_key(id) { 1nat } else { 0nat })
        + (if self.textures@.contains_key(id) { 1nat } else { 0nat })
    }

    /// Whether every asset identifier stands for one asset: no two tables
    /// hold the same identifier.
    pub open spec fn ids_distinct(self) -> bool {
        forall|id: AssetId|
            #![trigger self.meshes@.contains_key(id)]
            #![trigger self.materials@.contains_key(id)]
            #![trigger self.textures@.contains_key(id)]
            self.holders(id) <= 1
    }

    /// Whether every asset identifier stands for one asset.
    pub fn has_distinct_ids(&self) -> (distinct: bool)
        ensures
            distinct == self.ids_distinct(),
    {
        share_no_identifier(&self.meshes, &self.materials)
            && share_no_identifier(&self.meshes, &self.textures)
            && share_no_identifier(&self.materials, &self.textures)
    }
}

impl SceneGraph {
    /// Whether every entity identifier stands for one entity.
    pub open spec fn entity_ids_distinct(&self) -> bool {
        forall|i: int, j: int|
            0 <= i < j < self.entities@.len() ==> (#[trigger] self.entities@[i]).id != (
            #[trigger] self.entities@[j]).id
    }

    /// Whether no identifier stands for two things: every entity identifier
    /// names one entity, every component identifier one component and every
    /// asset identifier one asset.
    pub open spec fn ids_distinct(&self) -> bool {
        &&& self.entity_ids_distinct()
        &&& self.components.ids_distinct()
        &&& self.assets.ids_distinct()
    }

    /// Whether every entity identifier stands for one entity.
    fn has_distinct_entity_ids(&self) -> (distinct: bool)
        ensures
            distinct == self.entity_ids_distinct(),
    {
        let mut seen: BTreeSet<EntityId> = BTreeSet::new();
        let mut i: usize = 0;
        while i < self.entities.len()
            invariant
                0 <= i <= self.entities@.len(),
                forall|a: int, b: int|
                    0 <= a < b < i ==> (#[trigger] self.entities@[a]).id != (
                    #[trigger] self.entities@[b]).id,
                forall|a: int| 0 <= a < i ==> seen@.contains((#[trigger] self.entities@[a]).id),
                forall|id: EntityId|
                    seen@.contains(id) ==> exists|a: int|
                        0 <= a < i && (#[trigger] self.entities@[a]).id == id,
            decreases self.entities@.len() - i,
        {
            let id = self.entities[i].id;
            let ghost before = seen@;
            if !seen.insert(id) {
                proof {
                    let a = choose|a: int| 0 <= a < i && (#[trigger] self.entities@[a]).id == id;
                    assert(self.entities@[a].id == self.entities@[i as int].id);
                }
                return false;
            }
            assert forall|other: EntityId| seen@.contains(other) implies exists|a: int|
                0 <= a < i + 1 && (#[trigger] self.entities@[a]).id == other by {
                if other == id {
                    assert(self.entities@[i as int].id == other);
                } else {
                    assert(before.contains(other));
                    let a = choose|a: int| 0 <= a < i && (#[trigger] self.entities@[a]).id == other;
                    assert(0 <= a < i + 1 && self.entities@[a].id == other);
                }
            }
            i += 1;
        }
        true
    }

    /// Whether no identifier stands for two things.
    pub fn has_distinct_ids(&self) -> (distinct: bool)
        ensures
            distinct == self.ids_distinct(),
    {
        self.has_distinct_entity_ids() && self.components.has_distinct_ids()
            && self.assets.has_distinct_ids()
    }
}

} // verus!
