//! What an integrity check of a scene can report.

use vstd::prelude::*;
use crate::scene::{AssetId, ComponentId, ComponentKind, EntityId};

verus! {

/// A violation of the scene model's rules. Each is fatal to the operation
/// that found it; none is ever repaired or passed over silently.
#[derive(Clone, Copy, Debug, PartialEq, Eq, Structural)]
pub enum SceneError {
    /// Entity `entity` refers, in its slot for `kind`, to `component`, and
    /// the table of that kind has no such component.
    DanglingReference { entity: EntityId, kind: ComponentKind, component: ComponentId },
    /// A geometry component names mesh `asset`, and the asset registry has no
    /// such mesh.
    UnknownAsset { asset: AssetId },
    /// The declared schema version is not one this model knows.
    UnsupportedSchemaVersion,
}

} // verus!
