//! Projective transforms in three-dimensional space, carried by their 4x4
//! matrix representation.
//!
//! The matrix entries are bit patterns; construction and access are verified
//! here, and the projective arithmetic lives outside the core.

use crate::linear::Matrix4;
use vstd::prelude::*;

verus! {

/// A projective transform in three-dimensional space.
#[derive(Debug, Clone, Copy, PartialEq, Eq, Structural, Hash)]
pub struct Projective3 {
    /// The 4x4 matrix representation of the transform.
    matrix: Matrix4,
}

impl Projective3 {
    /// The matrix representation, as a mathematical value.
    pub closed spec fn matrix_spec(self) -> Matrix4 {
        self.matrix
    }

    /// The identity projective transform.
    pub fn identity() -> (r: Self)
        ensures
            r.matrix_spec() == Matrix4::identity_spec(),
    {
        Self { matrix: Matrix4::identity() }
    }

    /// Constructs a projective transform from its 4x4 matrix representation.
    pub fn new(matrix: Matrix4) -> (r: Self)
        ensures
            r.matrix_spec() == matrix,
    {
        Self { matrix }
    }

    /// Gets the 4x4 matrix representation of this projective transform.
    pub fn as_matrix(&self) -> (r: &Matrix4)
        ensures
            r == self.matrix_spec(),
    {
        &self.matrix
    }
}

} // verus!
