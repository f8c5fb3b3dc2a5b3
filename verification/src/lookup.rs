//! Following references: from an entity to its components, and from a
//! geometry component to its mesh.
//!
//! A reference is an identifier, never a pointer. To follow one is to look it
//! up in the table it belongs to, and a reference that the table cannot answer
//! is an error of its own kind, not an absent value.

use vstd::prelude::*;
use std::collections::BTreeMap;
use crate::error::SceneError;
use crate::scene::{
    ComponentId, ComponentKind, ComponentRefs, ComponentTable, EntityRecord, GeometryComponent,
    LayerComponent, MaterialComponent, MeshAsset, MetadataComponent, SceneGraph,
    TransformComponent,
};

verus! {

impl ComponentRefs {
    /// The component of kind `kind` that these references name, if any.
    pub open spec fn slot(self, kind: ComponentKind) -> Option<ComponentId> {
        match kind {
            ComponentKind::Transform => self.transform,
            ComponentKind::Geometry => self.geometry,
            ComponentKind::Material => self.material,
            ComponentKind::Layer => self.layer,
            ComponentKind::Metadata => self.metadata,
        }
    }

    /// The component of kind `kind` that these references name, if any.
    pub fn get(&self, kind: ComponentKind) -> (id: Option<ComponentId>)
        ensures
            id == self.slot(kind),
    {
        match kind {
            ComponentKind::Transform => self.transform,
            ComponentKind::Geometry => self.geometry,
            ComponentKind::Material => self.material,
            ComponentKind::Layer => self.layer,
            ComponentKind::Metadata => self.metadata,
        }
    }
}

impl ComponentTable {
    /// Whether the table of kind `kind` holds a component `id`.
    pub open spec fn has(self, kind: ComponentKind, id: ComponentId) -> bool {
        match kind {
            ComponentKind::Transform => self.transforms@.contains_key(id),
            ComponentKind::Geometry => self.geometries@.contains_key(id),
            ComponentKind::Material => self.materials@.contains_key(id),
            ComponentKind::Layer => self.layers@.contains_key(id),
            ComponentKind::Metadata => self.metadata@.contains_key(id),
        }
    }

    /// Whether `refs` names, in its slot for `kind`, a component that the
    /// table of that kind lacks.
    pub open spec fn dangling(self, refs: ComponentRefs, kind: ComponentKind) -> bool {
        refs.slot(kind) matches Some(id) && !self.has(kind, id)
    }

    /// Whether every component that `refs` names exists.
    pub open spec fn resolves(self, refs: ComponentRefs) -> bool {
        forall|kind: ComponentKind| !self.dangling(refs, kind)
    }

    /// The first kind, in the order of the slots, in which `refs` dangles.
    pub open spec fn first_dangling(self, refs: ComponentRefs) -> Option<ComponentKind> {
        if self.dangling(refs, ComponentKind::Transform) {
            Some(ComponentKind::Transform)
        } else if self.dangling(refs, ComponentKind::Geometry) {
            Some(ComponentKind::Geometry)
        } else if self.dangling(refs, ComponentKind::Material) {
            Some(ComponentKind::Material)
        } else if self.dangling(refs, ComponentKind::Layer) {
            Some(ComponentKind::Layer)
        } else if self.dangling(refs, ComponentKind::Metadata) {
            Some(ComponentKind::Metadata)
        } else {
            None
        }
    }

    /// Whether the table of kind `kind` holds a component `id`.
    pub fn contains(&self, kind: ComponentKind, id: ComponentId) -> (found: bool)
        ensures
            found == self.has(kind, id),
    {
        match kind {
            ComponentKind::Transform => self.transforms.contains_key(&id),
            ComponentKind::Geometry => self.geometries.contains_key(&id),
            ComponentKind::Material => self.materials.contains_key(&id),
            ComponentKind::Layer => self.layers.contains_key(&id),
            ComponentKind::Metadata => self.metadata.contains_key(&id),
        }
    }

    /// The first dangling slot is a dangling slot, and there is one exactly
    /// where some reference fails to resolve.
    pub proof fn lemma_first_dangling(self, refs: ComponentRefs)
        ensures
            self.first_dangling(refs) is None <==> self.resolves(refs),
            self.first_dangling(refs) matches Some(kind) ==> self.dangling(refs, kind),
    {
        if self.first_dangling(refs) is None {
            assert forall|kind: ComponentKind| !self.dangling(refs, kind) by {
                match kind {
                    ComponentKind::Transform => {},
                    ComponentKind::Geometry => {},
                    ComponentKind::Material => {},
                    ComponentKind::Layer => {},
                    ComponentKind::Metadata => {},
                }
            }
        }
    }
}

/// Looks up the component that `slot` names, if it names one. Where the
/// table lacks it, the identifier comes back as the error.
fn follow<'a, T>(table: &'a BTreeMap<ComponentId, T>, slot: Option<ComponentId>) -> (result: Result<
    Option<&'a T>,
    ComponentId,
>)
    ensures
        match result {
            Ok(found) => match slot {
                Some(id) => table@.contains_key(id) && found == Some(&table@[id]),
                None => found is None,
            },
            Err(id) => slot == Some(id) && !table@.contains_key(id),
        },
{
    match slot {
        Some(id) => match table.get(&id) {
            Some(component) => Ok(Some(component)),
            None => Err(id),
        },
        None => Ok(None),
    }
}

/// The component data that the references of one entity lead to.
#[derive(Clone, Copy, Debug, PartialEq, Eq)]
pub struct ResolvedComponents<'a> {
    pub transform: Option<&'a TransformComponent>,
    pub geometry: Option<&'a GeometryComponent>,
    pub material: Option<&'a MaterialComponent>,
    pub layer: Option<&'a LayerComponent>,
    pub metadata: Option<&'a MetadataComponent>,
}

impl<'a> ResolvedComponents<'a> {
    /// Whether this is what `refs` leads to in `table`: for each kind, the
    /// entry of the named component, and nothing where no component is named.
    pub open spec fn follows(self, refs: ComponentRefs, table: ComponentTable) -> bool {
        &&& self.transform == match refs.transform {
            Some(id) => Some(&table.transforms@[id]),
            None => None,
        }
        &&& self.geometry == match refs.geometry {
            Some(id) => Some(&table.geometries@[id]),
            None => None,
        }
        &&& self.material == match refs.material {
            Some(id) => Some(&table.materials@[id]),
            None => None,
        }
        &&& self.layer == match refs.layer {
            Some(id) => Some(&table.layers@[id]),
            None => None,
        }
        &&& self.metadata == match refs.metadata {
            Some(id) => Some(&table.metadata@[id]),
            None => None,
        }
    }
}

impl SceneGraph {
    /// The error that names the first dangling reference of `entity`, where
    /// it has one.
    pub open spec fn dangling_error(&self, entity: EntityRecord) -> Option<SceneError> {
        match self.components.first_dangling(entity.components) {
            Some(kind) => Some(
                SceneError::DanglingReference {
                    entity: entity.id,
                    kind,
                    component: entity.components.slot(kind).unwrap(),
                },
            ),
            None => None,
        }
    }

    /// Follows each reference of `entity` into the table of its kind.
    ///
    /// A reference that the table cannot answer is an error, never an absent
    /// value: the result is then the dangling reference that comes first in
    /// the order of the slots.
    pub fn resolve_components<'a>(&'a self, entity: &EntityRecord) -> (result: Result<
        ResolvedComponents<'a>,
        SceneError,
    >)
        ensures
            match result {
                Ok(found) => {
                    &&& self.components.resolves(entity.components)
                    &&& found.follows(entity.components, self.components)
                },
                Err(e) => {
                    &&& !self.components.resolves(entity.components)
                    &&& Some(e) == self.dangling_error(*entity)
                },
            },
    {
        let refs = &entity.components;
        let table = &self.components;
        let transform = match follow(&table.transforms, refs.transform) {
            Ok(found) => found,
            Err(component) => {
                assert(table.dangling(*refs, ComponentKind::Transform));
                return Err(
                    SceneError::DanglingReference {
                        entity: entity.id,
                        kind: ComponentKind::Transform,
                        component,
                    },
                );
            },
        };
        let geometry = match follow(&table.geometries, refs.geometry) {
            Ok(found) => found,
            Err(component) => {
                assert(table.dangling(*refs, ComponentKind::Geometry));
                return Err(
                    SceneError::DanglingReference {
                        entity: entity.id,
                        kind: ComponentKind::Geometry,
                        component,
                    },
                );
            },
        };
        let material = match follow(&table.materials, refs.material) {
            Ok(found) => found,
            Err(component) => {
                assert(table.dangling(*refs, ComponentKind::Material));
                return Err(
                    SceneError::DanglingReference {
                        entity: entity.id,
                        kind: ComponentKind::Material,
                        component,
                    },
                );
            },
        };
        let layer = match follow(&table.layers, refs.layer) {
            Ok(found) => found,
            Err(component) => {
                assert(table.dangling(*refs, ComponentKind::Layer));
                return Err(
                    SceneError::DanglingReference {
                        entity: entity.id,
                        kind: ComponentKind::Layer,
                        component,
                    },
                );
            },
        };
        let metadata = match follow(&table.metadata, refs.metadata) {
            Ok(found) => found,
            Err(component) => {
                assert(table.dangling(*refs, ComponentKind::Metadata));
                return Err(
                    SceneError::DanglingReference {
                        entity: entity.id,
                        kind: ComponentKind::Metadata,
                        component,
                    },
                );
            },
        };
        proof {
            table.lemma_first_dangling(*refs);
        }
        Ok(ResolvedComponents { transform, geometry, material, layer, metadata })
    }

    /// Follows the mesh reference of `geometry` into the asset registry. A
    /// mesh that the registry lacks is an error, never an absent value.
    pub fn resolve_mesh<'a>(&'a self, geometry: &GeometryComponent) -> (result: Result<
        &'a MeshAsset,
        SceneError,
    >)
        ensures
            match result {
                Ok(mesh) => self.assets.meshes@.contains_key(geometry.mesh) && *mesh
                    == self.assets.meshes@[geometry.mesh],
                Err(e) => !self.assets.meshes@.contains_key(geometry.mesh) && e
                    == (SceneError::UnknownAsset { asset: geometry.mesh }),
            },
    {
        match self.assets.meshes.get(&geometry.mesh) {
            Some(mesh) => Ok(mesh),
            None => Err(SceneError::UnknownAsset { asset: geometry.mesh }),
        }
    }
}

} // verus!
