//! Continuous vectors and column-major matrices over the bit-pattern scalar.
//!
//! These are the thin data carriers of the continuous types: construction,
//! field access and the identity matrices are verified here; arithmetic on
//! their entries is left to unverified code outside the core.

use crate::scalar::{Scalar, SCALAR_ONE_BITS, SCALAR_ZERO_BITS};
use vstd::prelude::*;

verus! {

/// A vector in continuous two-dimensional space.
#[derive(Debug, Clone, Copy, PartialEq, Eq, Structural, Hash)]
pub struct Vector2 {
    pub x: Scalar,
    pub y: Scalar,
}

impl Vector2 {
    /// Constructs a vector from its components.
    pub fn new(x: Scalar, y: Scalar) -> (r: Self)
        ensures
            r.x == x,
            r.y == y,
    {
        Self { x, y }
    }

    /// The zero vector.
    pub fn zero() -> (r: Self)
        ensures
            r.x.bits == SCALAR_ZERO_BITS,
            r.y.bits == SCALAR_ZERO_BITS,
    {
        Self { x: Scalar::zero(), y: Scalar::zero() }
    }
}

/// A vector in continuous three-dimensional space.
#[derive(Debug, Clone, Copy, PartialEq, Eq, Structural, Hash)]
pub struct Vector3 {
    pub x: Scalar,
    pub y: Scalar,
    pub z: Scalar,
}

impl Vector3 {
    /// Constructs a vector from its components.
    pub fn new(x: Scalar, y: Scalar, z: Scalar) -> (r: Self)
        ensures
            r.x == x,
            r.y == y,
            r.z == z,
    {
        Self { x, y, z }
    }

    /// The zero vector.
    pub fn zero() -> (r: Self)
        ensures
            r.x.bits == SCALAR_ZERO_BITS,
            r.y.bits == SCALAR_ZERO_BITS,
            r.z.bits == SCALAR_ZERO_BITS,
    {
        Self { x: Scalar::zero(), y: Scalar::zero(), z: Scalar::zero() }
    }
}

/// A vector in continuous four-dimensional space.
#[derive(Debug, Clone, Copy, PartialEq, Eq, Structural, Hash)]
pub struct Vector4 {
    pub x: Scalar,
    pub y: Scalar,
    pub z: Scalar,
    pub w: Scalar,
}

impl Vector4 {
    /// Constructs a vector from its components.
    pub fn new(x: Scalar, y: Scalar, z: Scalar, w: Scalar) -> (r: Self)
        ensures
            r.x == x,
            r.y == y,
            r.z == z,
            r.w == w,
    {
        Self { x, y, z, w }
    }
}

/// A 2x2 matrix, stored by column.
#[derive(Debug, Clone, Copy, PartialEq, Eq, Structural, Hash)]
pub struct Matrix2 {
    pub x: Vector2,
    pub y: Vector2,
}

impl Matrix2 {
    /// The identity matrix, as a mathematical value.
    pub open spec fn identity_spec() -> Matrix2 {
        Matrix2 {
            x: Vector2 {
                x: Scalar { bits: SCALAR_ONE_BITS },
                y: Scalar { bits: SCALAR_ZERO_BITS },
            },
            y: Vector2 {
                x: Scalar { bits: SCALAR_ZERO_BITS },
                y: Scalar { bits: SCALAR_ONE_BITS },
            },
        }
    }

    /// The identity matrix.
    pub fn identity() -> (r: Matrix2)
        ensures
            r == Matrix2::identity_spec(),
    {
        Matrix2 {
            x: Vector2 { x: Scalar::one(), y: Scalar::zero() },
            y: Vector2 { x: Scalar::zero(), y: Scalar::one() },
        }
    }
}

/// A 3x3 matrix, stored by column.
#[derive(Debug, Clone, Copy, PartialEq, Eq, Structural, Hash)]
pub struct Matrix3 {
    pub x: Vector3,
    pub y: Vector3,
    pub z: Vector3,
}

impl Matrix3 {
    /// The identity matrix, as a mathematical value.
    pub open spec fn identity_spec() -> Matrix3 {
        Matrix3 {
            x: Vector3 {
                x: Scalar { bits: SCALAR_ONE_BITS },
                y: Scalar { bits: SCALAR_ZERO_BITS },
                z: Scalar { bits: SCALAR_ZERO_BITS },
            },
            y: Vector3 {
                x: Scalar { bits: SCALAR_ZERO_BITS },
                y: Scalar { bits: SCALAR_ONE_BITS },
                z: Scalar { bits: SCALAR_ZERO_BITS },
            },
            z: Vector3 {
                x: Scalar { bits: SCALAR_ZERO_BITS },
                y: Scalar { bits: SCALAR_ZERO_BITS },
                z: Scalar { bits: SCALAR_ONE_BITS },
            },
        }
    }

    /// The identity matrix.
    pub fn identity() -> (r: Matrix3)
        ensures
            r == Matrix3::identity_spec(),
    {
        Matrix3 {
            x: Vector3 { x: Scalar::one(), y: Scalar::zero(), z: Scalar::zero() },
            y: Vector3 { x: Scalar::zero(), y: Scalar::one(), z: Scalar::zero() },
            z: Vector3 { x: Scalar::zero(), y: Scalar::zero(), z: Scalar::one() },
        }
    }
}

/// A 4x4 matrix, stored by column.
#[derive(Debug, Clone, Copy, PartialEq, Eq, Structural, Hash)]
pub struct Matrix4 {
    pub x: Vector4,
    pub y: Vector4,
    pub z: Vector4,
    pub w: Vector4,
}

impl Matrix4 {
    /// The identity matrix, as a mathematical value.
    pub open spec fn identity_spec() -> Matrix4 {
        Matrix4 {
            x: Vector4 {
                x: Scalar { bits: SCALAR_ONE_BITS },
                y: Scalar { bits: SCALAR_ZERO_BITS },
                z: Scalar { bits: SCALAR_ZERO_BITS },
                w: Scalar { bits: SCALAR_ZERO_BITS },
            },
            y: Vector4 {
                x: Scalar { bits: SCALAR_ZERO_BITS },
                y: Scalar { bits: SCALAR_ONE_BITS },
                z: Scalar { bits: SCALAR_ZERO_BITS },
                w: Scalar { bits: SCALAR_ZERO_BITS },
            },
            z: Vector4 {
                x: Scalar { bits: SCALAR_ZERO_BITS },
                y: Scalar { bits: SCALAR_ZERO_BITS },
                z: Scalar { bits: SCALAR_ONE_BITS },
                w: Scalar { bits: SCALAR_ZERO_BITS },
            },
            w: Vector4 {
                x: Scalar { bits: SCALAR_ZERO_BITS },
                y: Scalar { bits: SCALAR_ZERO_BITS },
                z: Scalar { bits: SCALAR_ZERO_BITS },
                w: Scalar { bits: SCALAR_ONE_BITS },
            },
        }
    }

    /// The identity matrix.
    pub fn identity() -> (r: Matrix4)
        ensures
            r == Matrix4::identity_spec(),
    {
        Matrix4 {
            x: Vector4 { x: Scalar::one(), y: Scalar::zero(), z: Scalar::zero(), w: Scalar::zero() },
            y: Vector4 { x: Scalar::zero(), y: Scalar::one(), z: Scalar::zero(), w: Scalar::zero() },
            z: Vector4 { x: Scalar::zero(), y: Scalar::zero(), z: Scalar::one(), w: Scalar::zero() },
            w: Vector4 { x: Scalar::zero(), y: Scalar::zero(), z: Scalar::zero(), w: Scalar::one() },
        }
    }
}

} // verus!
