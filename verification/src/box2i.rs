//! Axis-aligned rectangles in discrete two-dimensional space.

use crate::vec2i::Vector2i;
use vstd::prelude::*;

verus! {

/// The sum `a + b`, saturated to the greatest value an `i32` can hold.
pub open spec fn sat_add_i32(a: int, b: int) -> int {
    if a + b > i32::MAX {
        i32::MAX as int
    } else {
        a + b
    }
}

/// An axis-aligned rectangle in discrete two-dimensional space.
///
/// Boxes always have a positive size and contain at least one point: the
/// minimum coordinates never exceed the maximum coordinates.
#[derive(Debug, Clone, Copy, PartialEq, Eq, Structural, Hash)]
pub struct Box2i {
    /// The inclusive minimum coordinates of the box.
    min: Vector2i,
    /// The inclusive maximum coordinates of the box.
    max: Vector2i,
}

impl Box2i {
    /// The inclusive minimum coordinates of the box.
    pub closed spec fn min_spec(self) -> Vector2i {
        self.min
    }

    /// The inclusive maximum coordinates of the box.
    pub closed spec fn max_spec(self) -> Vector2i {
        self.max
    }

    /// The structural invariant: the box is not empty on either axis.
    pub open spec fn wf(self) -> bool {
        self.min_spec().x <= self.max_spec().x && self.min_spec().y <= self.max_spec().y
    }

    /// Whether the box contains the given point.
    pub open spec fn contains_spec(self, point: Vector2i) -> bool {
        self.min_spec().x <= point.x && self.min_spec().y <= point.y
            && point.x <= self.max_spec().x && point.y <= self.max_spec().y
    }

    /// Constructs a [`Box2i`] which contains only the given point.
    pub fn only(point: Vector2i) -> (r: Self)
        ensures
            r.min_spec() == point,
            r.max_spec() == point,
            r.wf(),
    {
        Self { min: point, max: point }
    }

    /// Constructs a [`Box2i`] from its minimum and maximum coordinates.
    ///
    /// This is also the smallest box that contains the two points.
    pub fn from_min_max(min: Vector2i, max: Vector2i) -> (r: Self)
        requires
            min.x <= max.x,
            min.y <= max.y,
        ensures
            r.min_spec() == min,
            r.max_spec() == max,
            r.wf(),
    {
        Self { min, max }
    }

    /// Constructs a [`Box2i`] from its minimum coordinates and size.
    ///
    /// A box that would extend past the greatest representable coordinate is
    /// clamped to it.
    pub fn from_min_size(min: Vector2i, size: Size2i) -> (r: Self)
        ensures
            r.min_spec() == min,
            r.max_spec().x == sat_add_i32(min.x as int, size.x_minus_1_spec()),
            r.max_spec().y == sat_add_i32(min.y as int, size.y_minus_1_spec()),
            r.wf(),
    {
        let max_x: i32 = saturating_add_unsigned(min.x, size.x_minus_1());
        let max_y: i32 = saturating_add_unsigned(min.y, size.y_minus_1());
        Self { min, max: Vector2i { x: max_x, y: max_y } }
    }

    /// The inclusive minimum coordinates of the box.
    pub fn min(&self) -> (r: Vector2i)
        ensures
            r == self.min_spec(),
    {
        self.min
    }

    /// The inclusive maximum coordinates of the box.
    pub fn max(&self) -> (r: Vector2i)
        ensures
            r == self.max_spec(),
    {
        self.max
    }

    /// The size of the box.
    pub fn size(&self) -> (r: Size2i)
        requires
            self.wf(),
        ensures
            r.x_minus_1_spec() == self.max_spec().x - self.min_spec().x,
            r.y_minus_1_spec() == self.max_spec().y - self.min_spec().y,
    {
        Size2i {
            x_minus_1: ((self.max.x as i64) - (self.min.x as i64)) as u32,
            y_minus_1: ((self.max.y as i64) - (self.min.y as i64)) as u32,
        }
    }

    /// Determines whether this box contains the given point.
    pub fn contains(&self, point: Vector2i) -> (r: bool)
        ensures
            r == self.contains_spec(point),
    {
        self.min.x <= point.x && self.min.y <= point.y && point.x <= self.max.x
            && point.y <= self.max.y
    }

    /// Determines whether this box has any points in common with the given box.
    pub fn overlaps(&self, other: Box2i) -> (r: bool)
        requires
            self.wf(),
            other.wf(),
        ensures
            r == (self.min_spec().x <= other.max_spec().x
                && self.min_spec().y <= other.max_spec().y
                && other.min_spec().x <= self.max_spec().x
                && other.min_spec().y <= self.max_spec().y),
            r == (exists|p: Vector2i| self.contains_spec(p) && other.contains_spec(p)),
    {
        let r = self.min.x <= other.max.x && self.min.y <= other.max.y
            && other.min.x <= self.max.x && other.min.y <= self.max.y;
        proof {
            if r {
                let px: i32 = if self.min.x >= other.min.x {
                    self.min.x
                } else {
                    other.min.x
                };
                let py: i32 = if self.min.y >= other.min.y {
                    self.min.y
                } else {
                    other.min.y
                };
                assert(self.contains_spec(Vector2i { x: px, y: py }));
                assert(other.contains_spec(Vector2i { x: px, y: py }));
            }
        }
        r
    }
}

impl Default for Box2i {
    fn default() -> (r: Self)
        ensures
            r.min_spec().x == 0 && r.min_spec().y == 0,
            r.max_spec().x == 0 && r.max_spec().y == 0,
            r.wf(),
    {
        Box2i { min: Vector2i { x: 0, y: 0 }, max: Vector2i { x: 0, y: 0 } }
    }
}

/// Adds an unsigned offset to an `i32`, saturating at the greatest `i32` value.
fn saturating_add_unsigned(a: i32, b: u32) -> (r: i32)
    ensures
        r == sat_add_i32(a as int, b as int),
{
    let wide: i64 = (a as i64) + (b as i64);
    if wide > (i32::MAX as i64) {
        i32::MAX
    } else {
        wide as i32
    }
}

/// Describes the size of a [`Box2i`]. Each component is positive.
#[derive(Debug, Clone, Copy, PartialEq, Eq, Structural, Hash)]
pub struct Size2i {
    /// One less than the size in the x direction.
    x_minus_1: u32,
    /// One less than the size in the y direction.
    y_minus_1: u32,
}

impl Size2i {
    /// One less than the size in the x direction, as a mathematical value.
    pub closed spec fn x_minus_1_spec(self) -> int {
        self.x_minus_1 as int
    }

    /// One less than the size in the y direction, as a mathematical value.
    pub closed spec fn y_minus_1_spec(self) -> int {
        self.y_minus_1 as int
    }

    /// Constructs a [`Size2i`] from its components, which must be positive.
    pub fn new(x: u32, y: u32) -> (r: Self)
        requires
            x >= 1,
            y >= 1,
        ensures
            r.x_minus_1_spec() == x - 1,
            r.y_minus_1_spec() == y - 1,
    {
        Self { x_minus_1: x - 1, y_minus_1: y - 1 }
    }

    /// The size in the x direction.
    pub fn x(&self) -> (r: u32)
        requires
            self.x_minus_1_spec() < u32::MAX,
        ensures
            r == self.x_minus_1_spec() + 1,
    {
        self.x_minus_1 + 1
    }

    /// The size in the y direction.
    pub fn y(&self) -> (r: u32)
        requires
            self.y_minus_1_spec() < u32::MAX,
        ensures
            r == self.y_minus_1_spec() + 1,
    {
        self.y_minus_1 + 1
    }

    /// One less than the size in the x direction.
    ///
    /// Unlike [`Self::x`], this is meaningful for every representable size.
    pub fn x_minus_1(&self) -> (r: u32)
        ensures
            r == self.x_minus_1_spec(),
    {
        self.x_minus_1
    }

    /// One less than the size in the y direction.
    ///
    /// Unlike [`Self::y`], this is meaningful for every representable size.
    pub fn y_minus_1(&self) -> (r: u32)
        ensures
            r == self.y_minus_1_spec(),
    {
        self.y_minus_1
    }

    /// Converts this size into a discrete vector.
    pub fn to_vec(&self) -> (r: Vector2i)
        requires
            self.x_minus_1_spec() <= i32::MAX - 1,
            self.y_minus_1_spec() <= i32::MAX - 1,
        ensures
            r.x == self.x_minus_1_spec() + 1,
            r.y == self.y_minus_1_spec() + 1,
    {
        Vector2i { x: (self.x_minus_1 + 1) as i32, y: (self.y_minus_1 + 1) as i32 }
    }

    /// Adds the given size to this one on both axes: placing the two sizes side
    /// by side, the combined extent is the sum of the sizes.
    pub fn add(self, other: Size2i) -> (r: Size2i)
        requires
            self.x_minus_1_spec() + other.x_minus_1_spec() + 1 <= u32::MAX,
            self.y_minus_1_spec() + other.y_minus_1_spec() + 1 <= u32::MAX,
        ensures
            r.x_minus_1_spec() == self.x_minus_1_spec() + other.x_minus_1_spec() + 1,
            r.y_minus_1_spec() == self.y_minus_1_spec() + other.y_minus_1_spec() + 1,
    {
        Size2i {
            x_minus_1: self.x_minus_1 + other.x_minus_1 + 1,
            y_minus_1: self.y_minus_1 + other.y_minus_1 + 1,
        }
    }
}

impl Default for Size2i {
    fn default() -> (r: Self)
        ensures
            r.x_minus_1_spec() == 0,
            r.y_minus_1_spec() == 0,
    {
        Size2i { x_minus_1: 0, y_minus_1: 0 }
    }
}

/// Shortcut for constructing a [`Size2i`] from its components, which must be
/// positive.
pub fn size2i(x: u32, y: u32) -> (r: Size2i)
    requires
        x >= 1,
        y >= 1,
    ensures
        r.x_minus_1_spec() == x - 1,
        r.y_minus_1_spec() == y - 1,
{
    Size2i::new(x, y)
}

} // verus!
