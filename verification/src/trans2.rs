//! Transforms in continuous two-dimensional space: rigid motions,
//! similarities, and affine transforms.
//!
//! The scalar entries are carried as bit patterns, so the constructors and
//! accessors here are verified exactly; inverses and compositions take real
//! arithmetic and live outside the core.

use crate::linear::{Matrix2, Vector2};
use crate::rot2::Rotation2;
use crate::scalar::{Scalar, SCALAR_ONE_BITS, SCALAR_ZERO_BITS};
use vstd::prelude::*;

verus! {

/// A transform in two-dimensional space consisting of rotation and
/// translation.
#[derive(Debug, Clone, Copy, PartialEq, Eq, Structural, Hash)]
pub struct Motion2 {
    /// The rotation component of this transform, applied before translation.
    pub rotation: Rotation2,
    /// The offset for the translation component of this transform, applied
    /// after rotation.
    pub offset: Vector2,
}

impl Motion2 {
    /// The identity motion.
    pub fn identity() -> (r: Self)
        ensures
            r.rotation.tan_half_angle_spec().bits == SCALAR_ZERO_BITS,
            r.offset.x.bits == SCALAR_ZERO_BITS,
            r.offset.y.bits == SCALAR_ZERO_BITS,
    {
        Self { rotation: Rotation2::identity(), offset: Vector2::zero() }
    }

    /// Constructs a motion which translates by the given offset.
    pub fn translate(offset: Vector2) -> (r: Self)
        ensures
            r.rotation.tan_half_angle_spec().bits == SCALAR_ZERO_BITS,
            r.offset == offset,
    {
        Self { rotation: Rotation2::identity(), offset }
    }

    /// Constructs the motion which only rotates, by the given rotation.
    pub fn from_rotation(rotation: Rotation2) -> (r: Self)
        ensures
            r.rotation == rotation,
            r.offset.x.bits == SCALAR_ZERO_BITS,
            r.offset.y.bits == SCALAR_ZERO_BITS,
    {
        Self { rotation, offset: Vector2::zero() }
    }

    /// Gets the linear component of this motion.
    pub fn linear(&self) -> (r: Rotation2)
        ensures
            r == self.rotation,
    {
        self.rotation
    }
}

/// A transform in two-dimensional space consisting of rotation, translation
/// and uniform scaling.
#[derive(Debug, Clone, Copy, PartialEq, Eq, Structural, Hash)]
pub struct Similarity2 {
    /// The rotation component of this transform, applied before translation.
    pub rotation: Rotation2,
    /// The scaling component of this transform, applied before translation.
    pub scaling: Scalar,
    /// The offset for the translation component of this transform, applied
    /// after rotation and scaling.
    pub offset: Vector2,
}

impl Similarity2 {
    /// The identity similarity.
    pub fn identity() -> (r: Self)
        ensures
            r.rotation.tan_half_angle_spec().bits == SCALAR_ZERO_BITS,
            r.scaling.bits == SCALAR_ONE_BITS,
            r.offset.x.bits == SCALAR_ZERO_BITS,
            r.offset.y.bits == SCALAR_ZERO_BITS,
    {
        Self { rotation: Rotation2::identity(), scaling: Scalar::one(), offset: Vector2::zero() }
    }

    /// Constructs a similarity which translates by the given offset.
    pub fn translate(offset: Vector2) -> (r: Self)
        ensures
            r.rotation.tan_half_angle_spec().bits == SCALAR_ZERO_BITS,
            r.scaling.bits == SCALAR_ONE_BITS,
            r.offset == offset,
    {
        Self { rotation: Rotation2::identity(), scaling: Scalar::one(), offset }
    }

    /// Constructs a similarity which scales by the given factor.
    pub fn scale(scaling: Scalar) -> (r: Self)
        ensures
            r.rotation.tan_half_angle_spec().bits == SCALAR_ZERO_BITS,
            r.scaling == scaling,
            r.offset.x.bits == SCALAR_ZERO_BITS,
            r.offset.y.bits == SCALAR_ZERO_BITS,
    {
        Self { rotation: Rotation2::identity(), scaling, offset: Vector2::zero() }
    }
}

/// An affine transform in two-dimensional space.
#[derive(Debug, Clone, Copy, PartialEq, Eq, Structural, Hash)]
pub struct Affine2 {
    /// The linear component of this transform, applied before translation.
    pub linear: Matrix2,
    /// The offset for the translation component of this transform, applied
    /// after the linear component.
    pub offset: Vector2,
}

impl Affine2 {
    /// The identity transform.
    pub fn identity() -> (r: Self)
        ensures
            r.linear == Matrix2::identity_spec(),
            r.offset.x.bits == SCALAR_ZERO_BITS,
            r.offset.y.bits == SCALAR_ZERO_BITS,
    {
        Self { linear: Matrix2::identity(), offset: Vector2::zero() }
    }

    /// Constructs an affine transform which translates by the given offset.
    pub fn translate(offset: Vector2) -> (r: Self)
        ensures
            r.linear == Matrix2::identity_spec(),
            r.offset == offset,
    {
        Self { linear: Matrix2::identity(), offset }
    }

    /// Constructs an affine transform which scales non-uniformly by the given
    /// factors: the linear component is the diagonal matrix of the two.
    pub fn scale(x: Scalar, y: Scalar) -> (r: Self)
        ensures
            r.linear.x.x == x,
            r.linear.x.y.bits == SCALAR_ZERO_BITS,
            r.linear.y.x.bits == SCALAR_ZERO_BITS,
            r.linear.y.y == y,
            r.offset.x.bits == SCALAR_ZERO_BITS,
            r.offset.y.bits == SCALAR_ZERO_BITS,
    {
        Self {
            linear: Matrix2 {
                x: Vector2 { x, y: Scalar::zero() },
                y: Vector2 { x: Scalar::zero(), y },
            },
            offset: Vector2::zero(),
        }
    }
}

} // verus!
