//! Vectors and orthogonal directions in discrete three-dimensional space.

use crate::{Axis3, Dir1};
use vstd::prelude::*;

verus! {

/// A vector in discrete three-dimensional space.
#[derive(Debug, Clone, Copy, PartialEq, Eq, Structural, Hash)]
pub struct Vector3i {
    pub x: i32,
    pub y: i32,
    pub z: i32,
}

impl Vector3i {
    /// Constructs a vector from its components.
    pub fn new(x: i32, y: i32, z: i32) -> (r: Self)
        ensures
            r.x == x,
            r.y == y,
            r.z == z,
    {
        Self { x, y, z }
    }

    /// Gets the component of this vector on the given axis.
    pub fn component(&self, axis: Axis3) -> (r: i32)
        ensures
            axis == Axis3::X ==> r == self.x,
            axis == Axis3::Y ==> r == self.y,
            axis == Axis3::Z ==> r == self.z,
    {
        match axis {
            Axis3::X => self.x,
            Axis3::Y => self.y,
            Axis3::Z => self.z,
        }
    }

    /// Adds the given vector to this one, componentwise.
    pub fn add(self, other: Vector3i) -> (r: Vector3i)
        requires
            i32::MIN <= self.x + other.x <= i32::MAX,
            i32::MIN <= self.y + other.y <= i32::MAX,
            i32::MIN <= self.z + other.z <= i32::MAX,
        ensures
            r.x == self.x + other.x,
            r.y == self.y + other.y,
            r.z == self.z + other.z,
    {
        Vector3i { x: self.x + other.x, y: self.y + other.y, z: self.z + other.z }
    }

    /// Subtracts the given vector from this one, componentwise.
    pub fn sub(self, other: Vector3i) -> (r: Vector3i)
        requires
            i32::MIN <= self.x - other.x <= i32::MAX,
            i32::MIN <= self.y - other.y <= i32::MAX,
            i32::MIN <= self.z - other.z <= i32::MAX,
        ensures
            r.x == self.x - other.x,
            r.y == self.y - other.y,
            r.z == self.z - other.z,
    {
        Vector3i { x: self.x - other.x, y: self.y - other.y, z: self.z - other.z }
    }

    /// Negates this vector, componentwise.
    pub fn neg(self) -> (r: Vector3i)
        requires
            self.x > i32::MIN,
            self.y > i32::MIN,
            self.z > i32::MIN,
        ensures
            r.x == -self.x,
            r.y == -self.y,
            r.z == -self.z,
    {
        Vector3i { x: -self.x, y: -self.y, z: -self.z }
    }

    /// Multiplies this vector by the given scalar, componentwise.
    pub fn scale(self, scalar: i32) -> (r: Vector3i)
        requires
            i32::MIN <= self.x * scalar <= i32::MAX,
            i32::MIN <= self.y * scalar <= i32::MAX,
            i32::MIN <= self.z * scalar <= i32::MAX,
        ensures
            r.x == self.x * scalar,
            r.y == self.y * scalar,
            r.z == self.z * scalar,
    {
        Vector3i { x: self.x * scalar, y: self.y * scalar, z: self.z * scalar }
    }
}

impl Default for Vector3i {
    fn default() -> (r: Self)
        ensures
            r.x == 0,
            r.y == 0,
            r.z == 0,
    {
        Vector3i { x: 0, y: 0, z: 0 }
    }
}

/// Shortcut for constructing a vector from its components.
pub fn vec3i(x: i32, y: i32, z: i32) -> (r: Vector3i)
    ensures
        r.x == x,
        r.y == y,
        r.z == z,
{
    Vector3i::new(x, y, z)
}

/// Identifies an orthogonal direction in three-dimensional space.
#[derive(Debug, Clone, Copy, PartialEq, Eq, Structural, PartialOrd, Ord, Hash)]
pub enum Dir3i {
    Xp,
    Xn,
    Yp,
    Yn,
    Zp,
    Zn,
}

impl Dir3i {
    /// Constructs a direction based on its axis and polarity along that axis.
    pub fn new(axis: Axis3, polarity: Dir1) -> (r: Self)
        ensures
            r.axis_spec() == axis,
            r.polarity_spec() == polarity,
    {
        match (axis, polarity) {
            (Axis3::X, Dir1::P) => Dir3i::Xp,
            (Axis3::X, Dir1::N) => Dir3i::Xn,
            (Axis3::Y, Dir1::P) => Dir3i::Yp,
            (Axis3::Y, Dir1::N) => Dir3i::Yn,
            (Axis3::Z, Dir1::P) => Dir3i::Zp,
            (Axis3::Z, Dir1::N) => Dir3i::Zn,
        }
    }

    /// The axis this direction is on, as a mathematical value.
    pub open spec fn axis_spec(self) -> Axis3 {
        match self {
            Dir3i::Xp | Dir3i::Xn => Axis3::X,
            Dir3i::Yp | Dir3i::Yn => Axis3::Y,
            Dir3i::Zp | Dir3i::Zn => Axis3::Z,
        }
    }

    /// The polarity of this direction along its axis, as a mathematical value.
    pub open spec fn polarity_spec(self) -> Dir1 {
        match self {
            Dir3i::Xp | Dir3i::Yp | Dir3i::Zp => Dir1::P,
            Dir3i::Xn | Dir3i::Yn | Dir3i::Zn => Dir1::N,
        }
    }

    /// Gets the axis this direction is on.
    pub fn axis(self) -> (r: Axis3)
        ensures
            r == self.axis_spec(),
    {
        match self {
            Dir3i::Xp | Dir3i::Xn => Axis3::X,
            Dir3i::Yp | Dir3i::Yn => Axis3::Y,
            Dir3i::Zp | Dir3i::Zn => Axis3::Z,
        }
    }

    /// Gets the polarity of this direction along its axis.
    pub fn polarity(self) -> (r: Dir1)
        ensures
            r == self.polarity_spec(),
    {
        match self {
            Dir3i::Xp | Dir3i::Yp | Dir3i::Zp => Dir1::P,
            Dir3i::Xn | Dir3i::Yn | Dir3i::Zn => Dir1::N,
        }
    }

    /// Gets the unit vector pointing in this direction.
    pub fn to_vector(self) -> (r: Vector3i)
        ensures
            self == Dir3i::Xp ==> r.x == 1 && r.y == 0 && r.z == 0,
            self == Dir3i::Xn ==> r.x == -1 && r.y == 0 && r.z == 0,
            self == Dir3i::Yp ==> r.x == 0 && r.y == 1 && r.z == 0,
            self == Dir3i::Yn ==> r.x == 0 && r.y == -1 && r.z == 0,
            self == Dir3i::Zp ==> r.x == 0 && r.y == 0 && r.z == 1,
            self == Dir3i::Zn ==> r.x == 0 && r.y == 0 && r.z == -1,
    {
        match self {
            Dir3i::Xp => Vector3i { x: 1, y: 0, z: 0 },
            Dir3i::Xn => Vector3i { x: -1, y: 0, z: 0 },
            Dir3i::Yp => Vector3i { x: 0, y: 1, z: 0 },
            Dir3i::Yn => Vector3i { x: 0, y: -1, z: 0 },
            Dir3i::Zp => Vector3i { x: 0, y: 0, z: 1 },
            Dir3i::Zn => Vector3i { x: 0, y: 0, z: -1 },
        }
    }
}

impl Default for Dir3i {
    fn default() -> (r: Self)
        ensures
            r == Dir3i::Xp,
    {
        Dir3i::Xp
    }
}

} // verus!
