//! Geometric primitives for 2D and 3D space.
//!
//! The discrete half is verified end to end: integer vectors, axis and
//! direction identifiers, the finite rotation groups of the square and of the
//! cube (with composition and inversion derived by probe search, not from
//! authored tables), axis-aligned integer boxes, and the rigid and orthogonal
//! integer transforms.
//!
//! The continuous half carries binary32 values as their exact bit patterns:
//! planar and spatial rotations, boxes, rigid/similarity/affine transforms and
//! projective matrices. Construction, access, negation, the machine ordering
//! and bounding are verified at the bit level; floating-point arithmetic
//! itself cannot stand in verified code and is left to the code around the
//! library, which converts at the boundary.

mod box2;
mod box2i;
mod conv;
mod linear;
mod proj3;
mod rot2;
mod rot2i;
mod rot3;
mod rot3i;
mod scalar;
mod trans2;
mod trans2i;
mod trans3;
mod vec2i;
mod vec3i;

pub use box2::Box2;
pub use box2i::{size2i, Box2i, Size2i};
pub use conv::{LookAt, LookTowards, Perspective};
pub use linear::{Matrix2, Matrix3, Matrix4, Vector2, Vector3, Vector4};
pub use proj3::Projective3;
pub use rot2::{lemma_rot2_inverse_involutive, Rotation2};
pub use rot2i::{lemma_rot2i_compose_assoc, lemma_rot2i_inverse_cancels, Rotation2i};
pub use rot3::Rotation3;
pub use scalar::{
    Scalar, SCALAR_HALF_BITS, SCALAR_HALF_SQRT2_BITS, SCALAR_INFINITY_BITS,
    SCALAR_NEG_HALF_BITS, SCALAR_NEG_HALF_SQRT2_BITS, SCALAR_NEG_INFINITY_BITS,
    SCALAR_NEG_ONE_BITS, SCALAR_ONE_BITS, SCALAR_SIGN_BIT, SCALAR_ZERO_BITS,
};
pub use trans2::{Affine2, Motion2, Similarity2};
pub use trans2i::{Motion2i, Ortho2i};
pub use trans3::{Affine3, Motion3, Similarity3};
pub use rot3i::{lemma_rot3i_compose_assoc, lemma_rot3i_inverse_cancels, Rotation3i};
pub use vec2i::{vec2i, Dir2i, Vector2i};
pub use vec3i::{vec3i, Dir3i, Vector3i};

use vstd::prelude::*;

verus! {

/// Identifies an axis in two-dimensional space.
#[derive(Debug, Clone, Copy, PartialEq, Eq, Structural, PartialOrd, Ord, Hash)]
pub enum Axis2 {
    X,
    Y,
}

impl Axis2 {
    /// The index associated with this axis, as a mathematical value.
    pub open spec fn index_spec(self) -> int {
        match self {
            Axis2::X => 0,
            Axis2::Y => 1,
        }
    }

    /// Constructs an axis from its index, or returns [`None`] if the index is invalid.
    pub fn new(index: usize) -> (r: Option<Axis2>)
        ensures
            index == 0 ==> r == Some(Axis2::X),
            index == 1 ==> r == Some(Axis2::Y),
            index >= 2 ==> r.is_none(),
    {
        match index {
            0 => Some(Axis2::X),
            1 => Some(Axis2::Y),
            _ => None,
        }
    }

    /// Gets the index associated with this axis.
    pub fn index(self) -> (r: usize)
        ensures
            r == self.index_spec(),
    {
        match self {
            Axis2::X => 0,
            Axis2::Y => 1,
        }
    }
}

/// Identifies an axis in three-dimensional space.
#[derive(Debug, Clone, Copy, PartialEq, Eq, Structural, PartialOrd, Ord, Hash)]
pub enum Axis3 {
    X,
    Y,
    Z,
}

impl Axis3 {
    /// The index associated with this axis, as a mathematical value.
    pub open spec fn index_spec(self) -> int {
        match self {
            Axis3::X => 0,
            Axis3::Y => 1,
            Axis3::Z => 2,
        }
    }

    /// Constructs an axis from its index, or returns [`None`] if the index is invalid.
    pub fn new(index: usize) -> (r: Option<Axis3>)
        ensures
            index == 0 ==> r == Some(Axis3::X),
            index == 1 ==> r == Some(Axis3::Y),
            index == 2 ==> r == Some(Axis3::Z),
            index >= 3 ==> r.is_none(),
    {
        match index {
            0 => Some(Axis3::X),
            1 => Some(Axis3::Y),
            2 => Some(Axis3::Z),
            _ => None,
        }
    }

    /// Gets the index associated with this axis.
    pub fn index(self) -> (r: usize)
        ensures
            r == self.index_spec(),
    {
        match self {
            Axis3::X => 0,
            Axis3::Y => 1,
            Axis3::Z => 2,
        }
    }
}

/// Identifies an axis in four-dimensional space.
#[derive(Debug, Clone, Copy, PartialEq, Eq, Structural, PartialOrd, Ord, Hash)]
pub enum Axis4 {
    X,
    Y,
    Z,
    W,
}

impl Axis4 {
    /// The index associated with this axis, as a mathematical value.
    pub open spec fn index_spec(self) -> int {
        match self {
            Axis4::X => 0,
            Axis4::Y => 1,
            Axis4::Z => 2,
            Axis4::W => 3,
        }
    }

    /// Constructs an axis from its index, or returns [`None`] if the index is invalid.
    pub fn new(index: usize) -> (r: Option<Axis4>)
        ensures
            index == 0 ==> r == Some(Axis4::X),
            index == 1 ==> r == Some(Axis4::Y),
            index == 2 ==> r == Some(Axis4::Z),
            index == 3 ==> r == Some(Axis4::W),
            index >= 4 ==> r.is_none(),
    {
        match index {
            0 => Some(Axis4::X),
            1 => Some(Axis4::Y),
            2 => Some(Axis4::Z),
            3 => Some(Axis4::W),
            _ => None,
        }
    }

    /// Gets the index associated with this axis.
    pub fn index(self) -> (r: usize)
        ensures
            r == self.index_spec(),
    {
        match self {
            Axis4::X => 0,
            Axis4::Y => 1,
            Axis4::Z => 2,
            Axis4::W => 3,
        }
    }
}

/// Identifies a direction in one-dimensional space: positive or negative.
#[derive(Debug, Clone, Copy, PartialEq, Eq, Structural, PartialOrd, Ord, Hash)]
pub enum Dir1 {
    P,
    N,
}

impl Default for Axis2 {
    fn default() -> (r: Self)
        ensures
            r == Axis2::X,
    {
        Axis2::X
    }
}

impl Default for Axis3 {
    fn default() -> (r: Self)
        ensures
            r == Axis3::X,
    {
        Axis3::X
    }
}

impl Default for Axis4 {
    fn default() -> (r: Self)
        ensures
            r == Axis4::X,
    {
        Axis4::X
    }
}

impl Default for Dir1 {
    fn default() -> (r: Self)
        ensures
            r == Dir1::P,
    {
        Dir1::P
    }
}

} // verus!
