//! 4x4 matrices.

use vstd::prelude::*;
use crate::ieee::{F64Bits, F64_ONE, F64_ZERO};

verus! {

/// A 4x4 matrix of binary64 values, flattened column by column: the entry in
/// row `r` of column `c` is `elements[4 * c + r]`.
#[derive(Clone, Copy, Debug, PartialEq, Eq)]
pub struct Matrix4 {
    pub elements: [F64Bits; 16],
}

/// The place of the entry in row `row` of column `col` in the flattened form.
pub open spec fn flat_index(row: int, col: int) -> int {
    4 * col + row
}

/// The entries of the identity matrix in flattened form: one on the diagonal,
/// zero elsewhere.
pub open spec fn identity_elements() -> Seq<F64Bits> {
    seq![
        F64_ONE, F64_ZERO, F64_ZERO, F64_ZERO,
        F64_ZERO, F64_ONE, F64_ZERO, F64_ZERO,
        F64_ZERO, F64_ZERO, F64_ONE, F64_ZERO,
        F64_ZERO, F64_ZERO, F64_ZERO, F64_ONE,
    ]
}

impl Matrix4 {
    /// The identity matrix.
    pub fn identity() -> (m: Matrix4)
        ensures
            m.elements@ == identity_elements(),
            forall|row: int, col: int|
                0 <= row < 4 && 0 <= col < 4 ==> #[trigger] m.elements@[flat_index(row, col)]
                    == (if row == col {
                    F64_ONE
                } else {
                    F64_ZERO
                }),
    {
        let m = Matrix4 {
            elements: [
                F64_ONE, F64_ZERO, F64_ZERO, F64_ZERO,
                F64_ZERO, F64_ONE, F64_ZERO, F64_ZERO,
                F64_ZERO, F64_ZERO, F64_ONE, F64_ZERO,
                F64_ZERO, F64_ZERO, F64_ZERO, F64_ONE,
            ],
        };
        assert(m.elements@ =~= identity_elements());
        m
    }
}

} // verus!
