//! The rotation group of discrete (axis-aligned) two-dimensional space.

use crate::rot2::Rotation2;
use crate::scalar::{
    Scalar, SCALAR_INFINITY_BITS, SCALAR_NEG_ONE_BITS, SCALAR_ONE_BITS, SCALAR_ZERO_BITS,
};
use crate::vec2i::Vector2i;
use vstd::prelude::*;

verus! {

/// A rotation in discrete (axis-aligned) two-dimensional space.
///
/// Each element is named as a shorthand description of the matrix it represents:
/// the first two letters give the image of the positive X axis, the next two the
/// image of the positive Y axis.
#[derive(Debug, Clone, Copy, PartialEq, Eq, Structural, PartialOrd, Ord, Hash)]
pub enum Rotation2i {
    XpYp,
    YpXn,
    XnYn,
    YnXp,
}

impl Rotation2i {
    /// The identity rotation.
    pub const IDENTITY: Rotation2i = Rotation2i::XpYp;

    /// A rotation which rotates counter-clockwise by 90 degrees.
    pub const CCW_90: Rotation2i = Rotation2i::YpXn;

    /// A rotation which rotates clockwise by 90 degrees.
    pub const CW_90: Rotation2i = Rotation2i::YnXp;

    /// A rotation which rotates by 180 degrees.
    pub const FLIP: Rotation2i = Rotation2i::XnYn;

    /// The index of this rotation: the number of quarter turns it makes
    /// counter-clockwise.
    pub open spec fn index_spec(self) -> int {
        match self {
            Rotation2i::XpYp => 0,
            Rotation2i::YpXn => 1,
            Rotation2i::XnYn => 2,
            Rotation2i::YnXp => 3,
        }
    }

    /// The rotation with the given index, for indices below 4.
    pub open spec fn from_index_spec(index: int) -> Rotation2i {
        if index == 0 {
            Rotation2i::XpYp
        } else if index == 1 {
            Rotation2i::YpXn
        } else if index == 2 {
            Rotation2i::XnYn
        } else {
            Rotation2i::YnXp
        }
    }

    /// The action of this rotation on a point of the plane: each element acts as
    /// a signed permutation of the two coordinates.
    pub open spec fn apply_spec(self, v: (int, int)) -> (int, int) {
        match self {
            Rotation2i::XpYp => (v.0, v.1),
            Rotation2i::YpXn => (-v.1, v.0),
            Rotation2i::XnYn => (-v.0, -v.1),
            Rotation2i::YnXp => (v.1, -v.0),
        }
    }

    /// The composition `self * rhs`: the rotation which rotates by `rhs` and
    /// then by `self`. Indices add modulo 4.
    pub open spec fn compose_spec(self, rhs: Rotation2i) -> Rotation2i {
        Self::from_index_spec((self.index_spec() + rhs.index_spec()) % 4)
    }

    /// The inverse of this rotation: its index is negated modulo 4.
    pub open spec fn inverse_spec(self) -> Rotation2i {
        Self::from_index_spec((4 - self.index_spec()) % 4)
    }

    /// Gets the number of counter-clockwise quarter turns this rotation makes.
    pub(crate) fn to_index(self) -> (r: u8)
        ensures
            r == self.index_spec(),
    {
        match self {
            Rotation2i::XpYp => 0,
            Rotation2i::YpXn => 1,
            Rotation2i::XnYn => 2,
            Rotation2i::YnXp => 3,
        }
    }

    /// Gets the rotation which makes the given number of counter-clockwise
    /// quarter turns.
    pub(crate) fn from_index(index: u8) -> (r: Rotation2i)
        requires
            index < 4,
        ensures
            r == Self::from_index_spec(index as int),
    {
        match index {
            0 => Rotation2i::XpYp,
            1 => Rotation2i::YpXn,
            2 => Rotation2i::XnYn,
            _ => Rotation2i::YnXp,
        }
    }

    /// Gets the inverse of this rotation, which rotates by the same amount in
    /// the opposite direction.
    pub fn inverse(&self) -> (r: Self)
        ensures
            r == self.inverse_spec(),
            forall|v: (int, int)| #![auto] r.apply_spec(self.apply_spec(v)) == v,
            forall|v: (int, int)| #![auto] self.apply_spec(r.apply_spec(v)) == v,
    {
        let i = self.to_index();
        Self::from_index((4 - i) % 4)
    }

    /// Determines the composition `self * rhs`: the rotation which rotates by
    /// `rhs` and then by `self`.
    pub fn compose(self, rhs: Rotation2i) -> (r: Rotation2i)
        ensures
            r == self.compose_spec(rhs),
            forall|v: (int, int)| #![auto] r.apply_spec(v) == self.apply_spec(rhs.apply_spec(v)),
    {
        let i = self.to_index();
        let j = rhs.to_index();
        Self::from_index((i + j) % 4)
    }

    /// Applies this rotation to a [`Vector2i`].
    pub fn apply_vec2i(&self, source: Vector2i) -> (r: Vector2i)
        requires
            source.x > i32::MIN,
            source.y > i32::MIN,
        ensures
            (r.x as int, r.y as int) == self.apply_spec((source.x as int, source.y as int)),
    {
        match self {
            Rotation2i::XpYp => Vector2i { x: source.x, y: source.y },
            Rotation2i::YpXn => Vector2i { x: -source.y, y: source.x },
            Rotation2i::XnYn => Vector2i { x: -source.x, y: -source.y },
            Rotation2i::YnXp => Vector2i { x: source.y, y: -source.x },
        }
    }

    /// The exact half-angle tangent of this rotation's continuous form: zero,
    /// one, infinity or negative one.
    pub open spec fn to_rot2_tan_spec(self) -> Scalar {
        match self {
            Rotation2i::XpYp => Scalar { bits: SCALAR_ZERO_BITS },
            Rotation2i::YpXn => Scalar { bits: SCALAR_ONE_BITS },
            Rotation2i::XnYn => Scalar { bits: SCALAR_INFINITY_BITS },
            Rotation2i::YnXp => Scalar { bits: SCALAR_NEG_ONE_BITS },
        }
    }

    /// Converts this rotation to a [`Rotation2`]: each quarter turn has an
    /// exact continuous form.
    pub fn to_rot2(self) -> (r: Rotation2)
        ensures
            r.tan_half_angle_spec() == self.to_rot2_tan_spec(),
    {
        match self {
            Rotation2i::XpYp => Rotation2::identity(),
            Rotation2i::YpXn => Rotation2::ccw_90(),
            Rotation2i::XnYn => Rotation2::flip(),
            Rotation2i::YnXp => Rotation2::cw_90(),
        }
    }

    /// Gets every element of the group, in index order.
    pub fn all() -> (r: Vec<Rotation2i>)
        ensures
            r@.len() == 4,
            forall|i: int| 0 <= i < 4 ==> r@[i] == Self::from_index_spec(i),
    {
        let mut r: Vec<Rotation2i> = Vec::new();
        r.push(Rotation2i::XpYp);
        r.push(Rotation2i::YpXn);
        r.push(Rotation2i::XnYn);
        r.push(Rotation2i::YnXp);
        r
    }
}

impl Default for Rotation2i {
    fn default() -> (r: Self)
        ensures
            r == Rotation2i::XpYp,
    {
        Rotation2i::XpYp
    }
}

/// The action of a planar rotation is linear: it distributes over sums and
/// commutes with negation.
pub(crate) proof fn lemma_rot2i_apply_linear(c: Rotation2i, v: (int, int), w: (int, int))
    ensures
        c.apply_spec(((v.0 + w.0), (v.1 + w.1))) == (
            c.apply_spec(v).0 + c.apply_spec(w).0,
            c.apply_spec(v).1 + c.apply_spec(w).1,
        ),
        c.apply_spec(((-v.0), (-v.1))) == (-c.apply_spec(v).0, -c.apply_spec(v).1),
{
}

/// Composition in the planar group is associative.
pub proof fn lemma_rot2i_compose_assoc(a: Rotation2i, b: Rotation2i, c: Rotation2i)
    ensures
        a.compose_spec(b).compose_spec(c) == a.compose_spec(b.compose_spec(c)),
{
}

/// Composing an element with its inverse, on either side, yields the identity.
pub proof fn lemma_rot2i_inverse_cancels(a: Rotation2i)
    ensures
        a.inverse_spec().compose_spec(a) == Rotation2i::IDENTITY,
        a.compose_spec(a.inverse_spec()) == Rotation2i::IDENTITY,
{
}

} // verus!
