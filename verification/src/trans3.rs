//! Transforms in continuous three-dimensional space: rigid motions,
//! similarities, and affine transforms.
//!
//! The scalar entries are carried as bit patterns, so the constructors and
//! accessors here are verified exactly; inverses and compositions take real
//! arithmetic and live outside the core.

use crate::linear::{Matrix3, Vector3};
use crate::rot3::Rotation3;
use crate::scalar::{Scalar, SCALAR_ONE_BITS, SCALAR_ZERO_BITS};
use vstd::prelude::*;

verus! {

/// A transform in three-dimensional space consisting of rotation and
/// translation.
#[derive(Debug, Clone, Copy, PartialEq, Eq, Structural, Hash)]
pub struct Motion3 {
    /// The rotation component of this transform, applied before translation.
    pub rotation: Rotation3,
    /// The offset for the translation component of this transform, applied
    /// after rotation.
    pub offset: Vector3,
}

impl Motion3 {
    /// The identity motion.
    pub fn identity() -> (r: Self)
        ensures
            r.rotation.scalar_part_spec().bits == SCALAR_ONE_BITS,
            r.rotation.vector_part_spec().x.bits == SCALAR_ZERO_BITS,
            r.rotation.vector_part_spec().y.bits == SCALAR_ZERO_BITS,
            r.rotation.vector_part_spec().z.bits == SCALAR_ZERO_BITS,
            r.offset.x.bits == SCALAR_ZERO_BITS,
            r.offset.y.bits == SCALAR_ZERO_BITS,
            r.offset.z.bits == SCALAR_ZERO_BITS,
    {
        Self { rotation: Rotation3::identity(), offset: Vector3::zero() }
    }

    /// Constructs a motion which translates by the given offset.
    pub fn translate(offset: Vector3) -> (r: Self)
        ensures
            r.rotation.scalar_part_spec().bits == SCALAR_ONE_BITS,
            r.rotation.vector_part_spec().x.bits == SCALAR_ZERO_BITS,
            r.rotation.vector_part_spec().y.bits == SCALAR_ZERO_BITS,
            r.rotation.vector_part_spec().z.bits == SCALAR_ZERO_BITS,
            r.offset == offset,
    {
        Self { rotation: Rotation3::identity(), offset }
    }

    /// Constructs the motion which only rotates, by the given rotation.
    pub fn from_rotation(rotation: Rotation3) -> (r: Self)
        ensures
            r.rotation == rotation,
            r.offset.x.bits == SCALAR_ZERO_BITS,
            r.offset.y.bits == SCALAR_ZERO_BITS,
            r.offset.z.bits == SCALAR_ZERO_BITS,
    {
        Self { rotation, offset: Vector3::zero() }
    }

    /// Gets the linear component of this motion.
    pub fn linear(&self) -> (r: Rotation3)
        ensures
            r == self.rotation,
    {
        self.rotation
    }
}

/// A transform in three-dimensional space consisting of rotation, translation
/// and uniform scaling.
#[derive(Debug, Clone, Copy, PartialEq, Eq, Structural, Hash)]
pub struct Similarity3 {
    /// The rotation component of this transform, applied before translation.
    pub rotation: Rotation3,
    /// The scaling component of this transform, applied before translation.
    pub scaling: Scalar,
    /// The offset for the translation component of this transform, applied
    /// after rotation and scaling.
    pub offset: Vector3,
}

impl Similarity3 {
    /// The identity similarity.
    pub fn identity() -> (r: Self)
        ensures
            r.rotation.scalar_part_spec().bits == SCALAR_ONE_BITS,
            r.rotation.vector_part_spec().x.bits == SCALAR_ZERO_BITS,
            r.rotation.vector_part_spec().y.bits == SCALAR_ZERO_BITS,
            r.rotation.vector_part_spec().z.bits == SCALAR_ZERO_BITS,
            r.scaling.bits == SCALAR_ONE_BITS,
            r.offset.x.bits == SCALAR_ZERO_BITS,
            r.offset.y.bits == SCALAR_ZERO_BITS,
            r.offset.z.bits == SCALAR_ZERO_BITS,
    {
        Self { rotation: Rotation3::identity(), scaling: Scalar::one(), offset: Vector3::zero() }
    }

    /// Constructs a similarity which translates by the given offset.
    pub fn translate(offset: Vector3) -> (r: Self)
        ensures
            r.rotation.scalar_part_spec().bits == SCALAR_ONE_BITS,
            r.rotation.vector_part_spec().x.bits == SCALAR_ZERO_BITS,
            r.rotation.vector_part_spec().y.bits == SCALAR_ZERO_BITS,
            r.rotation.vector_part_spec().z.bits == SCALAR_ZERO_BITS,
            r.scaling.bits == SCALAR_ONE_BITS,
            r.offset == offset,
    {
        Self { rotation: Rotation3::identity(), scaling: Scalar::one(), offset }
    }

    /// Constructs a similarity which scales by the given factor.
    pub fn scale(scaling: Scalar) -> (r: Self)
        ensures
            r.rotation.scalar_part_spec().bits == SCALAR_ONE_BITS,
            r.rotation.vector_part_spec().x.bits == SCALAR_ZERO_BITS,
            r.rotation.vector_part_spec().y.bits == SCALAR_ZERO_BITS,
            r.rotation.vector_part_spec().z.bits == SCALAR_ZERO_BITS,
            r.scaling == scaling,
            r.offset.x.bits == SCALAR_ZERO_BITS,
            r.offset.y.bits == SCALAR_ZERO_BITS,
            r.offset.z.bits == SCALAR_ZERO_BITS,
    {
        Self { rotation: Rotation3::identity(), scaling, offset: Vector3::zero() }
    }
}

/// An affine transform in three-dimensional space.
#[derive(Debug, Clone, Copy, PartialEq, Eq, Structural, Hash)]
pub struct Affine3 {
    /// The linear component of this transform, applied before translation.
    pub linear: Matrix3,
    /// The offset for the translation component of this transform, applied
    /// after the linear component.
    pub offset: Vector3,
}

impl Affine3 {
    /// The identity transform.
    pub fn identity() -> (r: Self)
        ensures
            r.linear == Matrix3::identity_spec(),
            r.offset.x.bits == SCALAR_ZERO_BITS,
            r.offset.y.bits == SCALAR_ZERO_BITS,
            r.offset.z.bits == SCALAR_ZERO_BITS,
    {
        Self { linear: Matrix3::identity(), offset: Vector3::zero() }
    }

    /// Constructs an affine transform which translates by the given offset.
    pub fn translate(offset: Vector3) -> (r: Self)
        ensures
            r.linear == Matrix3::identity_spec(),
            r.offset == offset,
    {
        Self { linear: Matrix3::identity(), offset }
    }

    /// Constructs an affine transform which scales non-uniformly by the given
    /// factors: the linear component is the diagonal matrix of the three.
    pub fn scale(x: Scalar, y: Scalar, z: Scalar) -> (r: Self)
        ensures
            r.linear.x.x == x,
            r.linear.y.y == y,
            r.linear.z.z == z,
            r.linear.x.y.bits == SCALAR_ZERO_BITS,
            r.linear.x.z.bits == SCALAR_ZERO_BITS,
            r.linear.y.x.bits == SCALAR_ZERO_BITS,
            r.linear.y.z.bits == SCALAR_ZERO_BITS,
            r.linear.z.x.bits == SCALAR_ZERO_BITS,
            r.linear.z.y.bits == SCALAR_ZERO_BITS,
            r.offset.x.bits == SCALAR_ZERO_BITS,
            r.offset.y.bits == SCALAR_ZERO_BITS,
            r.offset.z.bits == SCALAR_ZERO_BITS,
    {
        Self {
            linear: Matrix3 {
                x: Vector3 { x, y: Scalar::zero(), z: Scalar::zero() },
                y: Vector3 { x: Scalar::zero(), y, z: Scalar::zero() },
                z: Vector3 { x: Scalar::zero(), y: Scalar::zero(), z },
            },
            offset: Vector3::zero(),
        }
    }
}

} // verus!
