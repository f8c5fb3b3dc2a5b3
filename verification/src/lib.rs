//! A geometry kernel's value types and an in-memory scene description whose
//! structural invariants are machine checked.
//!
//! Real numbers are IEEE 754 values carried by their bit patterns (see
//! [`ieee`]); arithmetic on them happens outside this crate. What is proved
//! here is the layout of the numeric values ([`Vector3`], [`Matrix4`],
//! [`Mesh`]) and the referential integrity of a [`SceneGraph`].

pub mod error;
pub mod identity;
pub mod ieee;
pub mod integrity;
pub mod lookup;
pub mod matrix;
pub mod mesh;
pub mod scene;
pub mod schema;
pub mod vector;

pub use crate::error::SceneError;
pub use crate::ieee::{F32Bits, F64Bits};
pub use crate::identity::identifiers;
pub use crate::lookup::ResolvedComponents;
pub use crate::matrix::Matrix4;
pub use crate::mesh::Mesh;
pub use crate::schema::schema_version;
pub use crate::scene::{
    Aabb, AssetId, AssetRegistry, Axis, BufferLayout, BufferLayoutEntry, ComponentId, ComponentKind,
    ComponentRefs, ComponentTable, EntityId, EntityRecord, GeometryComponent, GeometryTopology,
    IndexFormat, LayerComponent, MaterialAsset, MaterialComponent, MeshAsset, MetadataComponent,
    MetadataValue, SceneGraph, SceneMetadata, SchemaVersion, TextureAsset, TransformComponent,
    Unit,
};
pub use crate::vector::Vector3;
