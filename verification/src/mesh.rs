//! Indexed triangle meshes and the canonical cube.

use vstd::prelude::*;
use crate::ieee::{F32Bits, f32_negate, f32_negated};

verus! {

/// An indexed triangle mesh: `positions` holds three binary32 coordinates per
/// vertex, `indices` three vertex numbers per triangle.
#[derive(Clone, Debug, PartialEq, Eq)]
pub struct Mesh {
    pub positions: Vec<F32Bits>,
    pub indices: Vec<u32>,
}

/// Whether corner `vertex` of the cube lies on the positive side of `axis`
/// (0 for x, 1 for y, 2 for z). Corners 0 to 3 walk round the face at
/// negative z, corners 4 to 7 round the face at positive z in the same order.
pub open spec fn corner_is_positive(vertex: int, axis: int) -> bool {
    if axis == 0 {
        vertex % 4 == 1 || vertex % 4 == 2
    } else if axis == 1 {
        vertex % 4 >= 2
    } else {
        vertex >= 4
    }
}

/// The 24 coordinates of the cube whose corners lie at `half` and at its
/// negation on every axis.
pub open spec fn cube_positions(half: F32Bits) -> Seq<F32Bits> {
    Seq::new(
        24,
        |i: int|
            if corner_is_positive(i / 3, i % 3) {
                half
            } else {
                f32_negated(half)
            },
    )
}

/// The 12 triangles of the cube, two to a face.
pub open spec fn cube_indices() -> Seq<u32> {
    seq![
        0, 1, 2, 2, 3, 0,
        4, 5, 6, 6, 7, 4,
        0, 4, 7, 7, 3, 0,
        1, 5, 6, 6, 2, 1,
        3, 2, 6, 6, 7, 3,
        0, 1, 5, 5, 4, 0,
    ]
}

/// Whether triangle `triangle` of the cube lies in the face on the side
/// `positive` of `axis`: its three corners differ from one another and all
/// lie on that side.
pub open spec fn triangle_in_face(triangle: int, axis: int, positive: bool) -> bool {
    let a = cube_indices()[3 * triangle] as int;
    let b = cube_indices()[3 * triangle + 1] as int;
    let c = cube_indices()[3 * triangle + 2] as int;
    &&& a != b && b != c && a != c
    &&& corner_is_positive(a, axis) == positive
    &&& corner_is_positive(b, axis) == positive
    &&& corner_is_positive(c, axis) == positive
}

/// The corner that lies on the positive side of exactly those axes for which
/// `x`, `y` and `z` say so.
pub open spec fn corner_with_signs(x: bool, y: bool, z: bool) -> int {
    (if x == y {
        if x {
            2int
        } else {
            0int
        }
    } else {
        if x {
            1int
        } else {
            3int
        }
    }) + (if z {
        4int
    } else {
        0int
    })
}

/// The eight corners are the eight combinations of signs, each once: the
/// figure is symmetric about the origin on every axis.
pub proof fn lemma_corners_are_the_sign_combinations()
    ensures
        forall|x: bool, y: bool, z: bool|
            {
                let vertex = #[trigger] corner_with_signs(x, y, z);
                &&& 0 <= vertex < 8
                &&& corner_is_positive(vertex, 0) == x
                &&& corner_is_positive(vertex, 1) == y
                &&& corner_is_positive(vertex, 2) == z
            },
        forall|vertex: int|
            0 <= vertex < 8 ==> vertex == corner_with_signs(
                #[trigger] corner_is_positive(vertex, 0),
                corner_is_positive(vertex, 1),
                corner_is_positive(vertex, 2),
            ),
{
}

/// Every face of the cube is covered by two triangles: triangles `2 * f` and
/// `2 * f + 1` lie in face `f`, where the faces are taken in the order
/// negative z, positive z, negative x, positive x, positive y, negative y.
pub proof fn lemma_triangles_cover_the_faces()
    ensures
        triangle_in_face(0, 2, false) && triangle_in_face(1, 2, false),
        triangle_in_face(2, 2, true) && triangle_in_face(3, 2, true),
        triangle_in_face(4, 0, false) && triangle_in_face(5, 0, false),
        triangle_in_face(6, 0, true) && triangle_in_face(7, 0, true),
        triangle_in_face(8, 1, true) && triangle_in_face(9, 1, true),
        triangle_in_face(10, 1, false) && triangle_in_face(11, 1, false),
{
}

impl Mesh {
    /// The number of vertices.
    pub open spec fn vertex_count(&self) -> nat {
        self.positions@.len() / 3
    }

    /// The number of triangles.
    pub open spec fn triangle_count(&self) -> nat {
        self.indices@.len() / 3
    }

    /// Every vertex has three coordinates, every triangle three corners, and
    /// every corner names a vertex of the mesh.
    pub open spec fn well_formed(&self) -> bool {
        &&& self.positions@.len() % 3 == 0
        &&& self.indices@.len() % 3 == 0
        &&& forall|i: int|
            0 <= i < self.indices@.len() ==> (#[trigger] self.indices@[i] as int)
                < self.vertex_count()
    }

    /// The cube centred at the origin whose corners lie at `half` and at its
    /// negation on every axis, so that its edge is twice `half` long.
    pub fn cube(half: F32Bits) -> (mesh: Mesh)
        ensures
            mesh.positions@ == cube_positions(half),
            mesh.indices@ == cube_indices(),
            mesh.well_formed(),
            mesh.vertex_count() == 8,
            mesh.triangle_count() == 12,
            forall|i: int|
                0 <= i < 24 ==> #[trigger] mesh.positions@[i] == half || mesh.positions@[i]
                    == f32_negated(half),
    {
        let p: F32Bits = half;
        let n: F32Bits = f32_negate(half);
        let positions: Vec<F32Bits> = vec![
            n, n, n, p, n, n, p, p, n, n, p, n,
            n, n, p, p, n, p, p, p, p, n, p, p,
        ];
        let indices: Vec<u32> = vec![
            0, 1, 2, 2, 3, 0,
            4, 5, 6, 6, 7, 4,
            0, 4, 7, 7, 3, 0,
            1, 5, 6, 6, 2, 1,
            3, 2, 6, 6, 7, 3,
            0, 1, 5, 5, 4, 0,
        ];
        assert(positions@ =~= cube_positions(half));
        assert(indices@ =~= cube_indices());
        Mesh { positions, indices }
    }
}

} // verus!
