//! Vectors and orthogonal directions in discrete two-dimensional space.

use crate::{Axis2, Dir1};
use vstd::prelude::*;

verus! {

/// A vector in discrete two-dimensional space.
#[derive(Debug, Clone, Copy, PartialEq, Eq, Structural, Hash)]
pub struct Vector2i {
    pub x: i32,
    pub y: i32,
}

impl Vector2i {
    /// Constructs a vector from its components.
    pub fn new(x: i32, y: i32) -> (r: Self)
        ensures
            r.x == x,
            r.y == y,
    {
        Self { x, y }
    }

    /// Gets the component of this vector on the given axis.
    pub fn component(&self, axis: Axis2) -> (r: i32)
        ensures
            axis == Axis2::X ==> r == self.x,
            axis == Axis2::Y ==> r == self.y,
    {
        match axis {
            Axis2::X => self.x,
            Axis2::Y => self.y,
        }
    }

    /// Adds the given vector to this one, componentwise.
    pub fn add(self, other: Vector2i) -> (r: Vector2i)
        requires
            i32::MIN <= self.x + other.x <= i32::MAX,
            i32::MIN <= self.y + other.y <= i32::MAX,
        ensures
            r.x == self.x + other.x,
            r.y == self.y + other.y,
    {
        Vector2i { x: self.x + other.x, y: self.y + other.y }
    }

    /// Subtracts the given vector from this one, componentwise.
    pub fn sub(self, other: Vector2i) -> (r: Vector2i)
        requires
            i32::MIN <= self.x - other.x <= i32::MAX,
            i32::MIN <= self.y - other.y <= i32::MAX,
        ensures
            r.x == self.x - other.x,
            r.y == self.y - other.y,
    {
        Vector2i { x: self.x - other.x, y: self.y - other.y }
    }

    /// Negates this vector, componentwise.
    pub fn neg(self) -> (r: Vector2i)
        requires
            self.x > i32::MIN,
            self.y > i32::MIN,
        ensures
            r.x == -self.x,
            r.y == -self.y,
    {
        Vector2i { x: -self.x, y: -self.y }
    }

    /// Multiplies this vector by the given scalar, componentwise.
    pub fn scale(self, scalar: i32) -> (r: Vector2i)
        requires
            i32::MIN <= self.x * scalar <= i32::MAX,
            i32::MIN <= self.y * scalar <= i32::MAX,
        ensures
            r.x == self.x * scalar,
            r.y == self.y * scalar,
    {
        Vector2i { x: self.x * scalar, y: self.y * scalar }
    }
}

impl Default for Vector2i {
    fn default() -> (r: Self)
        ensures
            r.x == 0,
            r.y == 0,
    {
        Vector2i { x: 0, y: 0 }
    }
}

/// Shortcut for constructing a vector from its components.
pub fn vec2i(x: i32, y: i32) -> (r: Vector2i)
    ensures
        r.x == x,
        r.y == y,
{
    Vector2i::new(x, y)
}

/// Identifies an orthogonal direction in two-dimensional space.
#[derive(Debug, Clone, Copy, PartialEq, Eq, Structural, PartialOrd, Ord, Hash)]
pub enum Dir2i {
    Xp,
    Xn,
    Yp,
    Yn,
}

impl Dir2i {
    /// Constructs a direction based on its axis and polarity along that axis.
    pub fn new(axis: Axis2, polarity: Dir1) -> (r: Self)
        ensures
            r.axis_spec() == axis,
            r.polarity_spec() == polarity,
    {
        match (axis, polarity) {
            (Axis2::X, Dir1::P) => Dir2i::Xp,
            (Axis2::X, Dir1::N) => Dir2i::Xn,
            (Axis2::Y, Dir1::P) => Dir2i::Yp,
            (Axis2::Y, Dir1::N) => Dir2i::Yn,
        }
    }

    /// The axis this direction is on, as a mathematical value.
    pub open spec fn axis_spec(self) -> Axis2 {
        match self {
            Dir2i::Xp | Dir2i::Xn => Axis2::X,
            Dir2i::Yp | Dir2i::Yn => Axis2::Y,
        }
    }

    /// The polarity of this direction along its axis, as a mathematical value.
    pub open spec fn polarity_spec(self) -> Dir1 {
        match self {
            Dir2i::Xp | Dir2i::Yp => Dir1::P,
            Dir2i::Xn | Dir2i::Yn => Dir1::N,
        }
    }

    /// Gets the axis this direction is on.
    pub fn axis(self) -> (r: Axis2)
        ensures
            r == self.axis_spec(),
    {
        match self {
            Dir2i::Xp | Dir2i::Xn => Axis2::X,
            Dir2i::Yp | Dir2i::Yn => Axis2::Y,
        }
    }

    /// Gets the polarity of this direction along its axis.
    pub fn polarity(self) -> (r: Dir1)
        ensures
            r == self.polarity_spec(),
    {
        match self {
            Dir2i::Xp | Dir2i::Yp => Dir1::P,
            Dir2i::Xn | Dir2i::Yn => Dir1::N,
        }
    }

    /// Gets the unit vector pointing in this direction.
    pub fn to_vector(self) -> (r: Vector2i)
        ensures
            self == Dir2i::Xp ==> r.x == 1 && r.y == 0,
            self == Dir2i::Xn ==> r.x == -1 && r.y == 0,
            self == Dir2i::Yp ==> r.x == 0 && r.y == 1,
            self == Dir2i::Yn ==> r.x == 0 && r.y == -1,
    {
        match self {
            Dir2i::Xp => Vector2i { x: 1, y: 0 },
            Dir2i::Xn => Vector2i { x: -1, y: 0 },
            Dir2i::Yp => Vector2i { x: 0, y: 1 },
            Dir2i::Yn => Vector2i { x: 0, y: -1 },
        }
    }
}

impl Default for Dir2i {
    fn default() -> (r: Self)
        ensures
            r == Dir2i::Xp,
    {
        Dir2i::Xp
    }
}

} // verus!
