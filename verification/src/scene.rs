//! The scene description: entities, the components they refer to, and the
//! registry of shared assets.
//!
//! The model is flat. An entity is a handle that names at most one component
//! of each kind by identifier; the data of a component lives in the table of
//! its kind, and a geometry component names its mesh in the asset registry.
//! Tables are ordered maps, so that walking one always visits its entries by
//! ascending identifier.

use vstd::prelude::*;
use std::collections::BTreeMap;
use crate::ieee::{F32Bits, F64Bits};
use crate::vector::Vector3;

verus! {

/// Identifies an entity within one scene graph.
pub type EntityId = u64;

/// Identifies a component within one scene graph.
pub type ComponentId = u64;

/// Identifies an asset within one scene graph.
pub type AssetId = u64;

/// The versions of the scene schema. The set is closed: a version that is not
/// listed here cannot be represented.
#[derive(Clone, Copy, Debug, PartialEq, Eq, Structural)]
pub enum SchemaVersion {
    V0,
}

/// A coordinate axis.
#[derive(Clone, Copy, Debug, PartialEq, Eq, Structural)]
pub enum Axis {
    X,
    Y,
    Z,
}

/// The unit of length of a scene.
#[derive(Clone, Copy, Debug, PartialEq, Eq, Structural)]
pub enum Unit {
    Mm,
    Cm,
    M,
}

/// Descriptive data about a scene as a whole.
#[derive(Clone, Debug, PartialEq, Eq)]
pub struct SceneMetadata {
    pub name: String,
    pub description: Option<String>,
    pub unit: Unit,
    pub up_axis: Axis,
    pub created_at: String,
    pub updated_at: String,
}

/// An axis-aligned bounding box.
#[derive(Clone, Copy, Debug, PartialEq, Eq, Structural)]
pub struct Aabb {
    pub min: Vector3,
    pub max: Vector3,
}

/// Where an entity stands: translation, rotation as Euler angles in radians
/// applied in the order x, y, z, and scale.
#[derive(Clone, Copy, Debug, PartialEq, Eq, Structural)]
pub struct TransformComponent {
    pub position: Vector3,
    pub rotation: Vector3,
    pub scale: Vector3,
}

/// How the indices of a mesh are grouped into primitives.
#[derive(Clone, Copy, Debug, PartialEq, Eq, Structural)]
pub enum GeometryTopology {
    Triangles,
    Lines,
}

/// The shape of an entity: a mesh of the asset registry.
#[derive(Clone, Copy, Debug, PartialEq, Eq)]
pub struct GeometryComponent {
    pub mesh: AssetId,
    pub topology: GeometryTopology,
    pub local_bounds: Option<Aabb>,
}

/// The surface of an entity. The values are binary32 and lie in the range
/// from zero to one by convention; the type does not enforce it.
#[derive(Clone, Copy, Debug, PartialEq, Eq)]
pub struct MaterialComponent {
    pub base_color: [F32Bits; 4],
    pub metallic: F32Bits,
    pub roughness: F32Bits,
    pub opacity: F32Bits,
}

/// The layer an entity is shown on.
#[derive(Clone, Debug, PartialEq, Eq)]
pub struct LayerComponent {
    pub name: String,
    pub visible: bool,
    pub locked: bool,
}

/// A value of a metadata property. The set of variants is closed.
#[derive(Clone, Debug, PartialEq, Eq)]
pub enum MetadataValue {
    String(String),
    /// A binary64 number.
    Number(F64Bits),
    Bool(bool),
    Null,
}

/// Free-form data attached to an entity.
#[derive(Clone, Debug, PartialEq, Eq)]
pub struct MetadataComponent {
    pub tags: Vec<String>,
    pub properties: BTreeMap<String, MetadataValue>,
}

/// The kinds of component. The set is closed: each kind has its own table in
/// [`ComponentTable`] and its own slot in [`ComponentRefs`].
#[derive(Clone, Copy, Debug, PartialEq, Eq, Structural)]
pub enum ComponentKind {
    Transform,
    Geometry,
    Material,
    Layer,
    Metadata,
}

/// The components of one entity: for each kind, the identifier of at most one
/// component.
#[derive(Clone, Copy, Debug, PartialEq, Eq)]
pub struct ComponentRefs {
    pub transform: Option<ComponentId>,
    pub geometry: Option<ComponentId>,
    pub material: Option<ComponentId>,
    pub layer: Option<ComponentId>,
    pub metadata: Option<ComponentId>,
}

/// An entity: an identifier, an optional name, and the components it refers
/// to.
#[derive(Clone, Debug, PartialEq, Eq)]
pub struct EntityRecord {
    pub id: EntityId,
    pub name: Option<String>,
    pub components: ComponentRefs,
}

/// The component data of a scene, one ordered table per kind.
#[derive(Clone, Debug, PartialEq, Eq)]
pub struct ComponentTable {
    pub transforms: BTreeMap<ComponentId, TransformComponent>,
    pub geometries: BTreeMap<ComponentId, GeometryComponent>,
    pub materials: BTreeMap<ComponentId, MaterialComponent>,
    pub layers: BTreeMap<ComponentId, LayerComponent>,
    pub metadata: BTreeMap<ComponentId, MetadataComponent>,
}

/// The width of the indices of a mesh.
#[derive(Clone, Copy, Debug, PartialEq, Eq, Structural)]
pub enum IndexFormat {
    Uint16,
    Uint32,
}

/// Where one vertex attribute lies in an interleaved vertex buffer.
#[derive(Clone, Copy, Debug, PartialEq, Eq, Structural)]
pub struct BufferLayoutEntry {
    pub offset: u32,
    pub stride: u32,
}

/// The vertex attributes of a mesh. Every mesh has positions; normals and
/// texture coordinates are optional.
#[derive(Clone, Copy, Debug, PartialEq, Eq)]
pub struct BufferLayout {
    pub position: BufferLayoutEntry,
    pub normal: Option<BufferLayoutEntry>,
    pub uv: Option<BufferLayoutEntry>,
}

/// A mesh of the asset registry.
#[derive(Clone, Debug, PartialEq, Eq)]
pub struct MeshAsset {
    pub id: AssetId,
    pub name: Option<String>,
    pub vertex_count: u32,
    pub index_count: u32,
    pub index_format: IndexFormat,
    pub topology: GeometryTopology,
    pub layout: BufferLayout,
    pub source_uri: Option<String>,
    pub bounds: Option<Aabb>,
}

/// A material of the asset registry.
#[derive(Clone, Debug, PartialEq, Eq)]
pub struct MaterialAsset {
    pub id: AssetId,
    pub name: Option<String>,
    pub base_color: [F32Bits; 4],
}

/// A texture of the asset registry.
#[derive(Clone, Debug, PartialEq, Eq)]
pub struct TextureAsset {
    pub id: AssetId,
    pub name: Option<String>,
    pub uri: String,
}

/// The shared assets of a scene, one ordered table per kind of asset.
#[derive(Clone, Debug, PartialEq, Eq)]
pub struct AssetRegistry {
    pub meshes: BTreeMap<AssetId, MeshAsset>,
    pub materials: BTreeMap<AssetId, MaterialAsset>,
    pub textures: BTreeMap<AssetId, TextureAsset>,
}

/// A scene: the aggregate of its entities, their components and the assets
/// they share.
#[derive(Clone, Debug, PartialEq, Eq)]
pub struct SceneGraph {
    pub schema_version: SchemaVersion,
    pub metadata: SceneMetadata,
    pub entities: Vec<EntityRecord>,
    pub components: ComponentTable,
    pub assets: AssetRegistry,
}

impl ComponentTable {
    /// The table that holds no component of any kind.
    pub fn new() -> (table: ComponentTable)
        ensures
            table.transforms@ == Map::<ComponentId, TransformComponent>::empty(),
            table.geometries@ == Map::<ComponentId, GeometryComponent>::empty(),
            table.materials@ == Map::<ComponentId, MaterialComponent>::empty(),
            table.layers@ == Map::<ComponentId, LayerComponent>::empty(),
            table.metadata@ == Map::<ComponentId, MetadataComponent>::empty(),
    {
        ComponentTable {
            transforms: BTreeMap::new(),
            geometries: BTreeMap::new(),
            materials: BTreeMap::new(),
            layers: BTreeMap::new(),
            metadata: BTreeMap::new(),
        }
    }
}

impl AssetRegistry {
    /// The registry that holds no asset.
    pub fn new() -> (registry: AssetRegistry)
        ensures
            registry.meshes@ == Map::<AssetId, MeshAsset>::empty(),
            registry.materials@ == Map::<AssetId, MaterialAsset>::empty(),
            registry.textures@ == Map::<AssetId, TextureAsset>::empty(),
    {
        AssetRegistry {
            meshes: BTreeMap::new(),
            materials: BTreeMap::new(),
            textures: BTreeMap::new(),
        }
    }
}

impl SceneGraph {
    /// The empty scene described by `metadata`, in the current schema
    /// version. It has no entity, component or asset, and so is well formed.
    pub fn new(metadata: SceneMetadata) -> (graph: SceneGraph)
        ensures
            graph.schema_version == SchemaVersion::V0,
            graph.metadata == metadata,
            graph.entities@ == Seq::<EntityRecord>::empty(),
            graph.components.transforms@ == Map::<ComponentId, TransformComponent>::empty(),
            graph.components.geometries@ == Map::<ComponentId, GeometryComponent>::empty(),
            graph.components.materials@ == Map::<ComponentId, MaterialComponent>::empty(),
            graph.components.layers@ == Map::<ComponentId, LayerComponent>::empty(),
            graph.components.metadata@ == Map::<ComponentId, MetadataComponent>::empty(),
            graph.assets.meshes@ == Map::<AssetId, MeshAsset>::empty(),
            graph.assets.materials@ == Map::<AssetId, MaterialAsset>::empty(),
            graph.assets.textures@ == Map::<AssetId, TextureAsset>::empty(),
            graph.well_formed(),
    {
        SceneGraph {
            schema_version: SchemaVersion::V0,
            metadata,
            entities: Vec::new(),
            components: ComponentTable::new(),
            assets: AssetRegistry::new(),
        }
    }
}

} // verus!
