//! Referential integrity of a scene graph.
//!
//! A scene graph is well formed when every component that an entity refers to
//! exists in the table of its kind, every mesh that a geometry component
//! names exists in the asset registry, and no identifier stands for two
//! things. Nothing here repairs a graph: a check either succeeds or reports
//! the first violation it meets.

use vstd::prelude::*;
use vstd::std_specs::btree::increasing_seq;
use crate::error::SceneError;
use crate::identity::lemma_increasing_identifiers;
use crate::scene::{ComponentId, ComponentKind, GeometryComponent, SceneGraph};

verus! {

impl SceneGraph {
    /// Whether every component that any entity refers to exists in the table
    /// of its kind.
    pub open spec fn references_resolve(&self) -> bool {
        forall|i: int|
            0 <= i < self.entities@.len() ==> self.components.resolves(
                #[trigger] self.entities@[i].components,
            )
    }

    /// Whether `id` is a geometry component that names a mesh which the asset
    /// registry lacks.
    pub open spec fn names_unknown_mesh(&self, id: ComponentId) -> bool {
        &&& self.components.geometries@.contains_key(id)
        &&& !self.assets.meshes@.contains_key(self.components.geometries@[id].mesh)
    }

    /// Whether every mesh that a geometry component names exists in the asset
    /// registry.
    pub open spec fn meshes_resolve(&self) -> bool {
        forall|id: ComponentId| !self.names_unknown_mesh(id)
    }

    /// Whether entity number `i` is the first, in the order of the entities,
    /// with a dangling reference.
    pub open spec fn first_dangling_entity(&self, i: int) -> bool {
        &&& 0 <= i < self.entities@.len()
        &&& !self.components.resolves(self.entities@[i].components)
        &&& forall|j: int|
            0 <= j < i ==> self.components.resolves(#[trigger] self.entities@[j].components)
    }

    /// Whether `id` is the least geometry component that names an unknown
    /// mesh.
    pub open spec fn first_unknown_mesh(&self, id: ComponentId) -> bool {
        &&& self.names_unknown_mesh(id)
        &&& forall|j: ComponentId| j < id ==> !self.names_unknown_mesh(j)
    }

    /// What a walk over the graph finds first: the first dangling reference
    /// of the first entity that has one; where no reference dangles, the
    /// unknown mesh of the least geometry component that names one; and
    /// nothing where the graph is sound.
    pub open spec fn first_violation(&self) -> Option<SceneError> {
        if !self.references_resolve() {
            let i = choose|i: int| self.first_dangling_entity(i);
            self.dangling_error(self.entities@[i])
        } else if !self.meshes_resolve() {
            let id = choose|id: ComponentId| self.first_unknown_mesh(id);
            Some(SceneError::UnknownAsset { asset: self.components.geometries@[id].mesh })
        } else {
            None
        }
    }

    /// Walks the entities in order and follows every reference of each.
    fn check_references(&self) -> (result: Result<(), SceneError>)
        ensures
            match result {
                Ok(()) => self.references_resolve(),
                Err(e) => exists|i: int|
                    self.first_dangling_entity(i) && Some(e) == self.dangling_error(
                        self.entities@[i],
                    ),
            },
    {
        let mut i: usize = 0;
        while i < self.entities.len()
            invariant
                0 <= i <= self.entities@.len(),
                forall|j: int|
                    0 <= j < i ==> self.components.resolves(
                        #[trigger] self.entities@[j].components,
                    ),
            decreases self.entities@.len() - i,
        {
            match self.resolve_components(&self.entities[i]) {
                Ok(_) => {},
                Err(e) => {
                    assert(self.first_dangling_entity(i as int));
                    return Err(e);
                },
            }
            i += 1;
        }
        Ok(())
    }

    /// Walks the geometry components by ascending identifier and follows the
    /// mesh reference of each.
    fn check_meshes(&self) -> (result: Result<(), SceneError>)
        ensures
            match result {
                Ok(()) => self.meshes_resolve(),
                Err(e) => exists|id: ComponentId|
                    self.first_unknown_mesh(id) && e == (SceneError::UnknownAsset {
                        asset: self.components.geometries@[id].mesh,
                    }),
            },
    {
        for entry in it: self.components.geometries.iter()
            invariant
                forall|j: int|
                    0 <= j < it.index() ==> self.assets.meshes@.contains_key(
                        (#[trigger] it.seq()[j]).1.mesh,
                    ),
                increasing_seq(
                    it.seq().map_values(|kv: (&ComponentId, &GeometryComponent)| *kv.0),
                ),
        {
            let (id, geometry) = entry;
            match self.resolve_mesh(geometry) {
                Ok(_) => {},
                Err(e) => {
                    assert(self.names_unknown_mesh(*id));
                    assert forall|j: ComponentId| j < *id implies !self.names_unknown_mesh(j) by {
                        if self.components.geometries@.contains_key(j) {
                            let pair = (&j, &self.components.geometries@[j]);
                            assert(it.seq().contains(pair));
                            let p = choose|p: int| 0 <= p < it.seq().len() && it.seq()[p] == pair;
                            let keys = it.seq().map_values(
                                |kv: (&ComponentId, &GeometryComponent)| *kv.0,
                            );
                            assert(keys[p] == j);
                            assert(keys[it.index()] == *id);
                            if it.index() < p {
                                lemma_increasing_identifiers(keys, it.index(), p);
                            }
                            assert(p < it.index());
                        }
                    }
                    assert(self.first_unknown_mesh(*id));
                    return Err(e);
                },
            }
        }
        Ok(())
    }

    /// Checks the references of the whole graph.
    ///
    /// The entities are walked in order and every reference of each is
    /// followed; then the geometry components are walked by ascending
    /// identifier and the mesh of each is looked up. The walk stops at the
    /// first reference that leads nowhere and reports it.
    pub fn validate(&self) -> (result: Result<(), SceneError>)
        ensures
            result is Ok <==> self.references_resolve() && self.meshes_resolve(),
            result == match self.first_violation() {
                Some(e) => Err::<(), SceneError>(e),
                None => Ok(()),
            },
    {
        proof {
            self.lemma_no_violation_iff_references_resolve();
        }
        match self.check_references() {
            Ok(()) => {},
            Err(e) => {
                return Err(e);
            },
        }
        match self.check_meshes() {
            Ok(()) => {},
            Err(e) => {
                return Err(e);
            },
        }
        Ok(())
    }

    /// Whether the graph keeps the rules of the model: every reference
    /// resolves and no identifier stands for two things.
    pub open spec fn well_formed(&self) -> bool {
        &&& self.references_resolve()
        &&& self.meshes_resolve()
        &&& self.ids_distinct()
    }

    /// Whether the graph keeps the rules of the model.
    pub fn is_well_formed(&self) -> (sound: bool)
        ensures
            sound == self.well_formed(),
    {
        match self.validate() {
            Ok(()) => self.has_distinct_ids(),
            Err(_) => false,
        }
    }

    /// Below an entity with a dangling reference there is a first such
    /// entity.
    proof fn lemma_least_dangling_entity(&self, n: int)
        requires
            0 <= n < self.entities@.len(),
            !self.components.resolves(self.entities@[n].components),
        ensures
            exists|i: int| self.first_dangling_entity(i),
        decreases n,
    {
        if forall|j: int|
            0 <= j < n ==> self.components.resolves(#[trigger] self.entities@[j].components) {
            assert(self.first_dangling_entity(n));
        } else {
            let j = choose|j: int|
                0 <= j < n && !self.components.resolves(#[trigger] self.entities@[j].components);
            self.lemma_least_dangling_entity(j);
        }
    }

    /// Below a geometry component that names an unknown mesh there is a least
    /// such component.
    proof fn lemma_least_unknown_mesh(&self, id: ComponentId)
        requires
            self.names_unknown_mesh(id),
        ensures
            exists|least: ComponentId| self.first_unknown_mesh(least),
        decreases id,
    {
        if forall|j: ComponentId| j < id ==> !self.names_unknown_mesh(j) {
            assert(self.first_unknown_mesh(id));
        } else {
            let j = choose|j: ComponentId| j < id && self.names_unknown_mesh(j);
            self.lemma_least_unknown_mesh(j);
        }
    }

    /// A walk finds nothing exactly where every reference of the graph
    /// resolves: every component that an entity names and every mesh that a
    /// geometry component names.
    pub proof fn lemma_no_violation_iff_references_resolve(&self)
        ensures
            self.first_violation() is None <==> self.references_resolve()
                && self.meshes_resolve(),
    {
        if !self.references_resolve() {
            let n = choose|n: int|
                0 <= n < self.entities@.len() && !self.components.resolves(
                    #[trigger] self.entities@[n].components,
                );
            self.lemma_least_dangling_entity(n);
            let i = choose|i: int| self.first_dangling_entity(i);
            self.components.lemma_first_dangling(self.entities@[i].components);
        } else if !self.meshes_resolve() {
            let id = choose|id: ComponentId| self.names_unknown_mesh(id);
            self.lemma_least_unknown_mesh(id);
        }
    }

    /// The first entity with a dangling reference decides what a walk finds:
    /// its first dangling slot.
    pub proof fn lemma_first_violation_at_entity(&self, i: int)
        requires
            self.first_dangling_entity(i),
        ensures
            self.first_violation() == self.dangling_error(self.entities@[i]),
            self.first_violation() matches Some(e) && e is DanglingReference,
    {
        let chosen = choose|c: int| self.first_dangling_entity(c);
        assert(chosen == i);
        self.components.lemma_first_dangling(self.entities@[i].components);
    }

    /// Where no entity has a dangling reference, the least geometry component
    /// that names an unknown mesh decides what a walk finds.
    pub proof fn lemma_first_violation_at_mesh(&self, id: ComponentId)
        requires
            self.references_resolve(),
            self.first_unknown_mesh(id),
        ensures
            self.first_violation() == Some(
                SceneError::UnknownAsset { asset: self.components.geometries@[id].mesh },
            ),
    {
        let chosen = choose|c: ComponentId| self.first_unknown_mesh(c);
        assert(chosen == id);
    }

    /// A dangling reference is always found: where any entity names, in any
    /// slot, a component that the table of that kind lacks, a walk over the
    /// graph reports a dangling reference.
    pub proof fn lemma_dangling_reference_is_reported(&self, i: int, kind: ComponentKind)
        requires
            0 <= i < self.entities@.len(),
            self.components.dangling(self.entities@[i].components, kind),
        ensures
            self.first_violation() matches Some(e) && e is DanglingReference,
    {
        self.lemma_least_dangling_entity(i);
        let first = choose|f: int| self.first_dangling_entity(f);
        self.lemma_first_violation_at_entity(first);
    }

    /// An unknown mesh is found wherever no reference of an entity dangles:
    /// where some geometry component names a mesh that the asset registry
    /// lacks, a walk over the graph reports an unknown asset.
    pub proof fn lemma_unknown_mesh_is_reported(&self, id: ComponentId)
        requires
            self.references_resolve(),
            self.names_unknown_mesh(id),
        ensures
            self.first_violation() matches Some(e) && e is UnknownAsset,
    {
        self.lemma_least_unknown_mesh(id);
        let first = choose|f: ComponentId| self.first_unknown_mesh(f);
        self.lemma_first_violation_at_mesh(first);
    }

    /// In a well-formed graph every reference can be followed: a walk finds
    /// no violation, every component that an entity names is in the table of
    /// its kind, and every mesh that a geometry component names is in the
    /// asset registry.
    pub proof fn lemma_well_formed_graph_resolves(&self)
        requires
            self.well_formed(),
        ensures
            self.first_violation() is None,
            forall|i: int|
                0 <= i < self.entities@.len() ==> self.dangling_error(#[trigger] self.entities@[i])
                    is None,
            forall|i: int, kind: ComponentKind|
                0 <= i < self.entities@.len() ==> (#[trigger] self.entities@[i].components.slot(
                    kind,
                ) matches Some(id) ==> self.components.has(kind, id)),
            forall|id: ComponentId| #[trigger]
                self.components.geometries@.contains_key(id)
                    ==> self.assets.meshes@.contains_key(self.components.geometries@[id].mesh),
    {
        self.lemma_no_violation_iff_references_resolve();
        assert forall|i: int| 0 <= i < self.entities@.len() implies self.dangling_error(
            #[trigger] self.entities@[i],
        ) is None by {
            self.components.lemma_first_dangling(self.entities@[i].components);
        }
        assert forall|i: int, kind: ComponentKind| 0 <= i < self.entities@.len() implies (
        #[trigger] self.entities@[i].components.slot(kind) matches Some(id) ==> self.components.has(
            kind,
            id,
        )) by {
            assert(self.components.resolves(self.entities@[i].components));
            assert(!self.components.dangling(self.entities@[i].components, kind));
        }
        assert forall|id: ComponentId| #[trigger]
            self.components.geometries@.contains_key(id) implies self.assets.meshes@.contains_key(
            self.components.geometries@[id].mesh,
        ) by {
            assert(!self.names_unknown_mesh(id));
        }
    }
}

} // verus!
