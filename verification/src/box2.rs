//! Axis-aligned rectangles in continuous two-dimensional space.
//!
//! The coordinates are binary32 values carried as bit patterns, so
//! membership, overlap and bounding are decided by the verified bit-level
//! ordering of [`Scalar`]; no arithmetic is needed.

use crate::linear::Vector2;
use crate::scalar::{Scalar, SCALAR_INFINITY_BITS, SCALAR_NEG_INFINITY_BITS};
use vstd::prelude::*;

verus! {

/// An axis-aligned rectangle in continuous two-dimensional space.
#[derive(Debug, Clone, Copy, PartialEq, Eq, Structural, Hash)]
pub struct Box2 {
    /// The minimum coordinates of the box.
    min: Vector2,
    /// The maximum coordinates of the box.
    max: Vector2,
}

impl Box2 {
    /// The minimum coordinates of the box.
    pub closed spec fn min_spec(self) -> Vector2 {
        self.min
    }

    /// The maximum coordinates of the box.
    pub closed spec fn max_spec(self) -> Vector2 {
        self.max
    }

    /// Whether the box contains the given point, under the machine ordering
    /// of coordinates: a box with a NaN bound contains nothing.
    pub open spec fn contains_spec(self, point: Vector2) -> bool {
        self.min_spec().x.le_spec(point.x) && self.min_spec().y.le_spec(point.y)
            && point.x.le_spec(self.max_spec().x) && point.y.le_spec(self.max_spec().y)
    }

    /// The minimum and maximum corners of the bound of the first `n` boxes of
    /// the sequence, folded in order. The fold is grown from a seed whose
    /// minimum coordinates are positive infinity and whose maximum
    /// coordinates are negative infinity, so that the first real bound
    /// replaces both.
    pub open spec fn bound_fold_spec(boxes: Seq<Box2>, n: int) -> (Vector2, Vector2)
        decreases n,
    {
        if n <= 0 {
            (
                Vector2 {
                    x: Scalar { bits: SCALAR_INFINITY_BITS },
                    y: Scalar { bits: SCALAR_INFINITY_BITS },
                },
                Vector2 {
                    x: Scalar { bits: SCALAR_NEG_INFINITY_BITS },
                    y: Scalar { bits: SCALAR_NEG_INFINITY_BITS },
                },
            )
        } else {
            let grown = Self::bound_fold_spec(boxes, n - 1);
            let next = boxes[n - 1];
            (
                Vector2 {
                    x: grown.0.x.min_spec(next.min_spec().x),
                    y: grown.0.y.min_spec(next.min_spec().y),
                },
                Vector2 {
                    x: grown.1.x.max_spec(next.max_spec().x),
                    y: grown.1.y.max_spec(next.max_spec().y),
                },
            )
        }
    }

    /// Constructs a [`Box2`] which contains only the given point.
    pub fn only(point: Vector2) -> (r: Self)
        ensures
            r.min_spec() == point,
            r.max_spec() == point,
    {
        Self { min: point, max: point }
    }

    /// Constructs a [`Box2`] from its minimum and maximum coordinates.
    pub fn from_min_max(min: Vector2, max: Vector2) -> (r: Self)
        ensures
            r.min_spec() == min,
            r.max_spec() == max,
    {
        Self { min, max }
    }

    /// The minimum coordinates of the box.
    pub fn min(&self) -> (r: Vector2)
        ensures
            r == self.min_spec(),
    {
        self.min
    }

    /// The maximum coordinates of the box.
    pub fn max(&self) -> (r: Vector2)
        ensures
            r == self.max_spec(),
    {
        self.max
    }

    /// Determines whether this box contains the given point.
    pub fn contains(&self, point: Vector2) -> (r: bool)
        ensures
            r == self.contains_spec(point),
    {
        self.min.x.le(point.x) && self.min.y.le(point.y) && point.x.le(self.max.x)
            && point.y.le(self.max.y)
    }

    /// Determines whether this box has any points in common with the given
    /// box, under the machine ordering of coordinates.
    pub fn overlaps(&self, other: Box2) -> (r: bool)
        ensures
            r == (self.min_spec().x.le_spec(other.max_spec().x)
                && self.min_spec().y.le_spec(other.max_spec().y)
                && other.min_spec().x.le_spec(self.max_spec().x)
                && other.min_spec().y.le_spec(self.max_spec().y)),
    {
        self.min.x.le(other.max.x) && self.min.y.le(other.max.y) && other.min.x.le(self.max.x)
            && other.min.y.le(self.max.y)
    }

    /// Gets the smallest box that contains both this box and the given box:
    /// the coordinate-wise minimum and maximum of their bounds.
    pub fn bound(&self, other: Box2) -> (r: Box2)
        ensures
            r.min_spec().x == self.min_spec().x.min_spec(other.min_spec().x),
            r.min_spec().y == self.min_spec().y.min_spec(other.min_spec().y),
            r.max_spec().x == self.max_spec().x.max_spec(other.max_spec().x),
            r.max_spec().y == self.max_spec().y.max_spec(other.max_spec().y),
    {
        Self {
            min: Vector2 {
                x: self.min.x.min(other.min.x),
                y: self.min.y.min(other.min.y),
            },
            max: Vector2 {
                x: self.max.x.max(other.max.x),
                y: self.max.y.max(other.max.y),
            },
        }
    }

    /// Gets the smallest box that contains all of the given boxes, or returns
    /// [`None`] if there are none: the bounds are folded in order, grown from
    /// the infinite seed box.
    #[verifier::loop_isolation(false)]
    pub fn bound_many(boxes: &Vec<Box2>) -> (r: Option<Box2>)
        ensures
            r.is_some() <==> boxes@.len() > 0,
            boxes@.len() > 0 ==> {
                let grown = Self::bound_fold_spec(boxes@, boxes@.len() as int);
                r.unwrap().min_spec() == grown.0 && r.unwrap().max_spec() == grown.1
            },
    {
        if boxes.len() == 0 {
            return None;
        }
        let mut acc = Self {
            min: Vector2 {
                x: Scalar { bits: SCALAR_INFINITY_BITS },
                y: Scalar { bits: SCALAR_INFINITY_BITS },
            },
            max: Vector2 {
                x: Scalar { bits: SCALAR_NEG_INFINITY_BITS },
                y: Scalar { bits: SCALAR_NEG_INFINITY_BITS },
            },
        };
        let mut i: usize = 0;
        while i < boxes.len()
            invariant
                i <= boxes@.len(),
                acc.min_spec() == Self::bound_fold_spec(boxes@, i as int).0,
                acc.max_spec() == Self::bound_fold_spec(boxes@, i as int).1,
            decreases boxes@.len() - i,
        {
            acc = acc.bound(boxes[i]);
            i += 1;
        }
        Some(acc)
    }
}

} // verus!
