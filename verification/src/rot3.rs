//! The continuous spatial rotation: a quaternion-like pair of a
//! three-component vector part and a scalar part, approximating a unit
//! quaternion.
//!
//! The components are carried as their exact bit patterns: construction and
//! inversion (negating the vector part, valid on the unit sphere) are
//! verified here; building a rotation about an axis, extracting one from a
//! matrix, and composition take real arithmetic and live outside the core.

use crate::linear::Vector3;
use crate::scalar::{Scalar, SCALAR_ONE_BITS, SCALAR_ZERO_BITS};
use vstd::prelude::*;

verus! {

/// A rotation in three-dimensional space.
#[derive(Debug, Clone, Copy, PartialEq, Eq, Structural, Hash)]
pub struct Rotation3 {
    /// The vector part of the quaternion.
    x_y_z: Vector3,
    /// The scalar part of the quaternion.
    w: Scalar,
}

impl Rotation3 {
    /// The vector part of the quaternion, as a mathematical value.
    pub closed spec fn vector_part_spec(self) -> Vector3 {
        self.x_y_z
    }

    /// The scalar part of the quaternion, as a mathematical value.
    pub closed spec fn scalar_part_spec(self) -> Scalar {
        self.w
    }

    /// Constructs a [`Rotation3`] from its quaternion components.
    ///
    /// This assumes that the input is normalized, i.e. that the squares of
    /// the four components sum to one; nothing checks it.
    pub fn new_unchecked(w: Scalar, x: Scalar, y: Scalar, z: Scalar) -> (r: Self)
        ensures
            r.scalar_part_spec() == w,
            r.vector_part_spec().x == x,
            r.vector_part_spec().y == y,
            r.vector_part_spec().z == z,
    {
        Self { x_y_z: Vector3 { x, y, z }, w }
    }

    /// The identity rotation: a unit scalar part and a zero vector part.
    pub fn identity() -> (r: Self)
        ensures
            r.scalar_part_spec().bits == SCALAR_ONE_BITS,
            r.vector_part_spec().x.bits == SCALAR_ZERO_BITS,
            r.vector_part_spec().y.bits == SCALAR_ZERO_BITS,
            r.vector_part_spec().z.bits == SCALAR_ZERO_BITS,
    {
        Self { x_y_z: Vector3::zero(), w: Scalar::one() }
    }

    /// Gets the vector part of the quaternion.
    pub fn vector_part(&self) -> (r: Vector3)
        ensures
            r == self.vector_part_spec(),
    {
        self.x_y_z
    }

    /// Gets the scalar part of the quaternion.
    pub fn scalar_part(&self) -> (r: Scalar)
        ensures
            r == self.scalar_part_spec(),
    {
        self.w
    }

    /// Gets the inverse of this rotation: the vector part is negated, exactly,
    /// by flipping the sign bit of each component. This is the conjugate
    /// quaternion, which inverts the rotation because the quaternion is
    /// assumed to be of unit norm.
    pub fn inverse(&self) -> (r: Self)
        ensures
            r.scalar_part_spec() == self.scalar_part_spec(),
            r.vector_part_spec().x == self.vector_part_spec().x.neg_spec(),
            r.vector_part_spec().y == self.vector_part_spec().y.neg_spec(),
            r.vector_part_spec().z == self.vector_part_spec().z.neg_spec(),
    {
        Self {
            x_y_z: Vector3 {
                x: self.x_y_z.x.neg(),
                y: self.x_y_z.y.neg(),
                z: self.x_y_z.z.neg(),
            },
            w: self.w,
        }
    }
}

impl Default for Rotation3 {
    fn default() -> (r: Self)
        ensures
            r.scalar_part_spec().bits == SCALAR_ONE_BITS,
            r.vector_part_spec().x.bits == SCALAR_ZERO_BITS,
            r.vector_part_spec().y.bits == SCALAR_ZERO_BITS,
            r.vector_part_spec().z.bits == SCALAR_ZERO_BITS,
    {
        Rotation3 {
            x_y_z: Vector3 {
                x: Scalar { bits: SCALAR_ZERO_BITS },
                y: Scalar { bits: SCALAR_ZERO_BITS },
                z: Scalar { bits: SCALAR_ZERO_BITS },
            },
            w: Scalar { bits: SCALAR_ONE_BITS },
        }
    }
}

} // verus!
