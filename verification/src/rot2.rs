//! The continuous planar rotation, encoded by the tangent of half its angle.
//!
//! The encoding needs only one scalar, composes without trigonometry, and
//! keeps its worst-case precision even across a full turn. The scalar is
//! carried as its exact bit pattern: inversion is a sign flip and is verified
//! here; building a rotation from an angle or direction, and reading its sine
//! and cosine, take real arithmetic and live outside the core.

use crate::scalar::{
    Scalar, SCALAR_INFINITY_BITS, SCALAR_NEG_ONE_BITS, SCALAR_ONE_BITS, SCALAR_ZERO_BITS,
};
use vstd::prelude::*;

verus! {

/// A rotational transform in two-dimensional space.
#[derive(Debug, Clone, Copy, PartialEq, Eq, Structural, Hash)]
pub struct Rotation2 {
    /// The tangent of half the angle of the rotation (positive values
    /// correspond to counter-clockwise rotations). The half turn is carried
    /// by the infinite pattern.
    tan_half_angle: Scalar,
}

impl Rotation2 {
    /// The tangent of half the angle, as a mathematical value.
    pub closed spec fn tan_half_angle_spec(self) -> Scalar {
        self.tan_half_angle
    }

    /// Constructs the rotation whose half-angle tangent is the given value.
    pub fn from_tan_half_angle(tan_half_angle: Scalar) -> (r: Self)
        ensures
            r.tan_half_angle_spec() == tan_half_angle,
    {
        Self { tan_half_angle }
    }

    /// Gets the tangent of half the angle of this rotation.
    pub fn tan_half_angle(&self) -> (r: Scalar)
        ensures
            r == self.tan_half_angle_spec(),
    {
        self.tan_half_angle
    }

    /// The identity rotation: a zero half-angle tangent.
    pub fn identity() -> (r: Self)
        ensures
            r.tan_half_angle_spec().bits == SCALAR_ZERO_BITS,
    {
        Self { tan_half_angle: Scalar::zero() }
    }

    /// The rotation counter-clockwise by 90 degrees: a half-angle tangent of
    /// one.
    pub fn ccw_90() -> (r: Self)
        ensures
            r.tan_half_angle_spec().bits == SCALAR_ONE_BITS,
    {
        Self { tan_half_angle: Scalar::one() }
    }

    /// The rotation clockwise by 90 degrees: a half-angle tangent of negative
    /// one.
    pub fn cw_90() -> (r: Self)
        ensures
            r.tan_half_angle_spec().bits == SCALAR_NEG_ONE_BITS,
    {
        Self { tan_half_angle: Scalar::neg_one() }
    }

    /// The rotation by 180 degrees: an infinite half-angle tangent.
    pub fn flip() -> (r: Self)
        ensures
            r.tan_half_angle_spec().bits == SCALAR_INFINITY_BITS,
    {
        Self { tan_half_angle: Scalar::infinity() }
    }

    /// Gets the "inverse" of this rotation, which rotates by the same amount
    /// in the opposite direction: the half-angle tangent is negated, exactly,
    /// by flipping its sign bit.
    pub fn inverse(&self) -> (r: Self)
        ensures
            r.tan_half_angle_spec() == self.tan_half_angle_spec().neg_spec(),
    {
        Self { tan_half_angle: self.tan_half_angle.neg() }
    }
}

impl Default for Rotation2 {
    fn default() -> (r: Self)
        ensures
            r.tan_half_angle_spec().bits == SCALAR_ZERO_BITS,
    {
        Rotation2 { tan_half_angle: Scalar { bits: SCALAR_ZERO_BITS } }
    }
}

/// Inverting a planar rotation twice yields the rotation itself: negation
/// flips the sign bit and flipping it twice restores every pattern.
pub proof fn lemma_rot2_inverse_involutive(r: Rotation2)
    ensures
        r.tan_half_angle_spec().neg_spec().neg_spec() == r.tan_half_angle_spec(),
{
}

} // verus!
