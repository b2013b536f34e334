//! Transforms in discrete two-dimensional space: rigid motions and the wider
//! class of orthogonality-preserving transforms.

use crate::rot2i::{lemma_rot2i_apply_linear, Rotation2i};
use crate::vec2i::Vector2i;
use vstd::prelude::*;

verus! {

/// A transform in discrete two-dimensional space consisting of rotation and
/// translation.
///
/// This is the most general type of transform in discrete two-dimensional
/// space that is invertible.
#[derive(Debug, Clone, Copy, PartialEq, Eq, Structural, Hash)]
pub struct Motion2i {
    /// The rotation component of this transform, applied before translation.
    pub rotation: Rotation2i,
    /// The offset for the translation component of this transform, applied
    /// after rotation.
    pub offset: Vector2i,
}

impl Motion2i {
    /// The action of this motion on a point of the plane: rotation first, then
    /// translation.
    pub open spec fn apply_spec(self, v: (int, int)) -> (int, int) {
        let rv = self.rotation.apply_spec(v);
        (rv.0 + self.offset.x, rv.1 + self.offset.y)
    }

    /// Whether the action on the given point stays within the representable
    /// coordinate range.
    pub open spec fn can_apply(self, v: (int, int)) -> bool {
        v.0 > i32::MIN && v.1 > i32::MIN && i32::MIN <= self.apply_spec(v).0 <= i32::MAX
            && i32::MIN <= self.apply_spec(v).1 <= i32::MAX
    }

    /// The identity motion.
    pub fn identity() -> (r: Self)
        ensures
            r.rotation == Rotation2i::IDENTITY,
            r.offset.x == 0 && r.offset.y == 0,
            forall|v: (int, int)| #![auto] r.apply_spec(v) == v,
    {
        let r = Self { rotation: Rotation2i::XpYp, offset: Vector2i { x: 0, y: 0 } };
        proof {
            assert forall|v: (int, int)| #![auto] r.apply_spec(v) == v by {
                assert((v.0, v.1) == v);
            }
        }
        r
    }

    /// Constructs a motion which translates by the given offset.
    pub fn translate(offset: Vector2i) -> (r: Self)
        ensures
            r.rotation == Rotation2i::IDENTITY,
            r.offset == offset,
            forall|v: (int, int)| #![auto]
                r.apply_spec(v) == (v.0 + offset.x, v.1 + offset.y),
    {
        Self { rotation: Rotation2i::XpYp, offset }
    }

    /// Constructs the motion which only rotates, by the given rotation.
    pub fn from_rotation(rotation: Rotation2i) -> (r: Self)
        ensures
            r.rotation == rotation,
            r.offset.x == 0 && r.offset.y == 0,
            forall|v: (int, int)| #![auto] r.apply_spec(v) == rotation.apply_spec(v),
    {
        let r = Self { rotation, offset: Vector2i { x: 0, y: 0 } };
        proof {
            assert forall|v: (int, int)| #![auto] r.apply_spec(v) == rotation.apply_spec(v) by {
                let rv = rotation.apply_spec(v);
                assert((rv.0, rv.1) == rv);
            }
        }
        r
    }

    /// Gets the linear component of this motion.
    pub fn linear(&self) -> (r: Rotation2i)
        ensures
            r == self.rotation,
    {
        self.rotation
    }

    /// Gets the inverse of this motion, which carries every image back to the
    /// point it came from.
    pub fn inverse(&self) -> (r: Self)
        requires
            self.offset.x > i32::MIN,
            self.offset.y > i32::MIN,
        ensures
            r.rotation == self.rotation.inverse_spec(),
            forall|v: (int, int)| #![auto] r.apply_spec(self.apply_spec(v)) == v,
            forall|v: (int, int)| #![auto] self.apply_spec(r.apply_spec(v)) == v,
    {
        let rotation = self.rotation.inverse();
        let r = Self { rotation, offset: rotation.apply_vec2i(self.offset.neg()) };
        proof {
            let off = (self.offset.x as int, self.offset.y as int);
            assert forall|v: (int, int)| #![auto] r.apply_spec(self.apply_spec(v)) == v by {
                let rv = self.rotation.apply_spec(v);
                lemma_rot2i_apply_linear(rotation, rv, off);
                lemma_rot2i_apply_linear(rotation, off, off);
                assert((v.0, v.1) == v);
            }
            assert forall|v: (int, int)| #![auto] self.apply_spec(r.apply_spec(v)) == v by {
                let iv = rotation.apply_spec(v);
                let io = rotation.apply_spec(off);
                lemma_rot2i_apply_linear(rotation, off, off);
                lemma_rot2i_apply_linear(self.rotation, (iv.0 - io.0, iv.1 - io.1), io);
                assert((v.0, v.1) == v);
                assert(((iv.0 - io.0) + io.0, (iv.1 - io.1) + io.1) == iv);
            }
        }
        r
    }

    /// Determines the composition `self * rhs`: the motion which moves by
    /// `rhs` and then by `self`.
    pub fn compose(self, rhs: Motion2i) -> (r: Motion2i)
        requires
            self.can_apply((rhs.offset.x as int, rhs.offset.y as int)),
        ensures
            r.rotation == self.rotation.compose_spec(rhs.rotation),
            forall|v: (int, int)| #![auto]
                r.apply_spec(v) == self.apply_spec(rhs.apply_spec(v)),
    {
        let rotation = self.rotation.compose(rhs.rotation);
        let moved = self.rotation.apply_vec2i(rhs.offset);
        let r = Motion2i { rotation, offset: moved.add(self.offset) };
        proof {
            let off_b = (rhs.offset.x as int, rhs.offset.y as int);
            assert forall|v: (int, int)| #![auto]
                r.apply_spec(v) == self.apply_spec(rhs.apply_spec(v)) by {
                let bv = rhs.rotation.apply_spec(v);
                lemma_rot2i_apply_linear(self.rotation, bv, off_b);
            }
        }
        r
    }

    /// Applies this motion to a [`Vector2i`].
    pub fn apply(self, rhs: Vector2i) -> (r: Vector2i)
        requires
            self.can_apply((rhs.x as int, rhs.y as int)),
        ensures
            (r.x as int, r.y as int) == self.apply_spec((rhs.x as int, rhs.y as int)),
    {
        self.rotation.apply_vec2i(rhs).add(self.offset)
    }
}

/// Distributing a scaling over a scaled-and-translated coordinate: the shape of
/// each component equation in the composition of two orthogonal transforms.
proof fn lemma_scale_compose(a: int, b: int, c: int, d: int)
    by (nonlinear_arith)
    ensures
        (a * b + c) * d == a * (d * b) + c * d,
{
}

/// The orthogonal transform read off from a rigid motion acts as that motion.
proof fn lemma_ortho_matches_motion(r: Ortho2i, value: Motion2i, v: (int, int))
    requires
        r.offset_spec() == value.offset,
        value.rotation == Rotation2i::XpYp ==> r.scaling_x_spec() == 1 && r.scaling_y_spec() == 1
            && !r.swap_axes_spec(),
        value.rotation == Rotation2i::YpXn ==> r.scaling_x_spec() == 1 && r.scaling_y_spec() == -1
            && r.swap_axes_spec(),
        value.rotation == Rotation2i::XnYn ==> r.scaling_x_spec() == -1 && r.scaling_y_spec()
            == -1 && !r.swap_axes_spec(),
        value.rotation == Rotation2i::YnXp ==> r.scaling_x_spec() == -1 && r.scaling_y_spec() == 1
            && r.swap_axes_spec(),
    ensures
        r.apply_spec(v) == value.apply_spec(v),
{
    let rv = value.rotation.apply_spec(v);
    assert((rv.0, rv.1) == rv);
}

/// A transform in discrete two-dimensional space consisting of rotation,
/// non-uniform scaling, reflection and translation, i.e. a transform that
/// preserves orthogonality of the axes.
#[derive(Debug, Clone, Copy, PartialEq, Eq, Structural, Hash)]
pub struct Ortho2i {
    /// The scaling applied to the X axis. Can be negative to reflect about the
    /// Y axis. Never zero.
    scaling_x: i8,
    /// The scaling applied to the Y axis. Can be negative to reflect about the
    /// X axis. Never zero.
    scaling_y: i8,
    /// If true, the X and Y axes are swapped after scaling.
    swap_axes: bool,
    /// The offset for the translation component of this transform, applied
    /// after rotation and scaling.
    pub offset: Vector2i,
}

impl Ortho2i {
    /// The scaling applied to the X axis, as a mathematical value.
    pub closed spec fn scaling_x_spec(self) -> int {
        self.scaling_x as int
    }

    /// The scaling applied to the Y axis, as a mathematical value.
    pub closed spec fn scaling_y_spec(self) -> int {
        self.scaling_y as int
    }

    /// Whether the X and Y axes are swapped after scaling.
    pub closed spec fn swap_axes_spec(self) -> bool {
        self.swap_axes
    }

    /// The translation component, as a mathematical value.
    pub closed spec fn offset_spec(self) -> Vector2i {
        self.offset
    }

    /// The structural invariant: both scalings are non-zero, so the transform
    /// is invertible over the rationals.
    pub open spec fn wf(self) -> bool {
        self.scaling_x_spec() != 0 && self.scaling_y_spec() != 0
    }

    /// The action of this transform on a point of the plane: scaling first,
    /// then the optional axis swap, then translation.
    pub open spec fn apply_spec(self, v: (int, int)) -> (int, int) {
        let sx = v.0 * self.scaling_x_spec();
        let sy = v.1 * self.scaling_y_spec();
        let p = if self.swap_axes_spec() {
            (sy, sx)
        } else {
            (sx, sy)
        };
        (p.0 + self.offset_spec().x, p.1 + self.offset_spec().y)
    }

    /// Whether the action on the given point stays within the representable
    /// coordinate range.
    pub open spec fn can_apply(self, v: (int, int)) -> bool {
        i32::MIN <= v.0 * self.scaling_x_spec() <= i32::MAX
            && i32::MIN <= v.1 * self.scaling_y_spec() <= i32::MAX
            && i32::MIN <= self.apply_spec(v).0 <= i32::MAX
            && i32::MIN <= self.apply_spec(v).1 <= i32::MAX
    }

    /// The scaling pair of the composition `self * rhs` before it is combined
    /// with the scalings of `rhs`: `self`'s scalings, swapped when `rhs` swaps
    /// the axes.
    pub open spec fn scalings_seen_through(self, rhs: Ortho2i) -> (int, int) {
        if rhs.swap_axes_spec() {
            (self.scaling_y_spec(), self.scaling_x_spec())
        } else {
            (self.scaling_x_spec(), self.scaling_y_spec())
        }
    }

    /// The identity transform.
    pub fn identity() -> (r: Self)
        ensures
            r.scaling_x_spec() == 1,
            r.scaling_y_spec() == 1,
            !r.swap_axes_spec(),
            r.offset_spec().x == 0 && r.offset_spec().y == 0,
            r.wf(),
            forall|v: (int, int)| #![auto] r.apply_spec(v) == v,
    {
        let r = Self {
            scaling_x: 1,
            scaling_y: 1,
            swap_axes: false,
            offset: Vector2i { x: 0, y: 0 },
        };
        proof {
            assert forall|v: (int, int)| #![auto] r.apply_spec(v) == v by {
                assert((v.0, v.1) == v);
            }
        }
        r
    }

    /// Constructs an orthogonal transform which translates by the given offset.
    pub fn translate(offset: Vector2i) -> (r: Self)
        ensures
            r.scaling_x_spec() == 1,
            r.scaling_y_spec() == 1,
            !r.swap_axes_spec(),
            r.offset_spec() == offset,
            r.wf(),
            forall|v: (int, int)| #![auto]
                r.apply_spec(v) == (v.0 + offset.x, v.1 + offset.y),
    {
        Self { scaling_x: 1, scaling_y: 1, swap_axes: false, offset }
    }

    /// Constructs an orthogonal transform which scales by the given factors,
    /// which must be non-zero and small enough for the scaling fields.
    pub fn scale(x: i32, y: i32) -> (r: Self)
        requires
            x != 0,
            y != 0,
            -128 <= x <= 127,
            -128 <= y <= 127,
        ensures
            r.scaling_x_spec() == x,
            r.scaling_y_spec() == y,
            !r.swap_axes_spec(),
            r.offset_spec().x == 0 && r.offset_spec().y == 0,
            r.wf(),
    {
        Self {
            scaling_x: x as i8,
            scaling_y: y as i8,
            swap_axes: false,
            offset: Vector2i { x: 0, y: 0 },
        }
    }

    /// Converts a rigid motion into an orthogonal transform with the same
    /// action.
    pub fn from_motion(value: Motion2i) -> (r: Self)
        ensures
            r.wf(),
            r.offset_spec() == value.offset,
            forall|v: (int, int)| #![auto] r.apply_spec(v) == value.apply_spec(v),
    {
        let offset = value.offset;
        let r = match value.rotation {
            Rotation2i::XpYp => Self { scaling_x: 1, scaling_y: 1, swap_axes: false, offset },
            Rotation2i::YpXn => Self { scaling_x: 1, scaling_y: -1, swap_axes: true, offset },
            Rotation2i::XnYn => Self { scaling_x: -1, scaling_y: -1, swap_axes: false, offset },
            Rotation2i::YnXp => Self { scaling_x: -1, scaling_y: 1, swap_axes: true, offset },
        };
        proof {
            assert forall|v: (int, int)| #![auto] r.apply_spec(v) == value.apply_spec(v) by {
                lemma_ortho_matches_motion(r, value, v);
            }
        }
        r
    }

    /// Converts a rotation into an orthogonal transform with the same action.
    pub fn from_rotation(value: Rotation2i) -> (r: Self)
        ensures
            r.wf(),
            r.offset_spec().x == 0 && r.offset_spec().y == 0,
            forall|v: (int, int)| #![auto] r.apply_spec(v) == value.apply_spec(v),
    {
        let r = Self::from_motion(Motion2i::from_rotation(value));
        proof {
            assert forall|v: (int, int)| #![auto] r.apply_spec(v) == value.apply_spec(v) by {
                let rv = value.apply_spec(v);
                assert((rv.0, rv.1) == rv);
            }
        }
        r
    }

    /// Determines the composition `self * rhs`: the transform which transforms
    /// by `rhs` and then by `self`.
    pub fn compose(self, rhs: Ortho2i) -> (r: Ortho2i)
        requires
            -128 <= self.scalings_seen_through(rhs).0 * rhs.scaling_x_spec() <= 127,
            -128 <= self.scalings_seen_through(rhs).1 * rhs.scaling_y_spec() <= 127,
            self.can_apply((rhs.offset_spec().x as int, rhs.offset_spec().y as int)),
        ensures
            r.scaling_x_spec() == self.scalings_seen_through(rhs).0 * rhs.scaling_x_spec(),
            r.scaling_y_spec() == self.scalings_seen_through(rhs).1 * rhs.scaling_y_spec(),
            r.swap_axes_spec() == (self.swap_axes_spec() != rhs.swap_axes_spec()),
            self.wf() && rhs.wf() ==> r.wf(),
            forall|v: (int, int)| #![auto]
                r.apply_spec(v) == self.apply_spec(rhs.apply_spec(v)),
    {
        let (scaling_x, scaling_y): (i8, i8) = if rhs.swap_axes {
            (self.scaling_y, self.scaling_x)
        } else {
            (self.scaling_x, self.scaling_y)
        };
        let scaling_x: i8 = ((scaling_x as i32) * (rhs.scaling_x as i32)) as i8;
        let scaling_y: i8 = ((scaling_y as i32) * (rhs.scaling_y as i32)) as i8;
        let swap_axes = self.swap_axes != rhs.swap_axes;
        let offset = self.apply(rhs.offset);
        let r = Ortho2i { scaling_x, scaling_y, swap_axes, offset };
        proof {
            if self.wf() && rhs.wf() {
                vstd::arithmetic::mul::lemma_mul_nonzero(
                    self.scalings_seen_through(rhs).0,
                    rhs.scaling_x_spec(),
                );
                vstd::arithmetic::mul::lemma_mul_nonzero(
                    self.scalings_seen_through(rhs).1,
                    rhs.scaling_y_spec(),
                );
            }
            assert forall|v: (int, int)| #![auto]
                r.apply_spec(v) == self.apply_spec(rhs.apply_spec(v)) by {
                let sxs = self.scaling_x_spec();
                let sys = self.scaling_y_spec();
                let sxr = rhs.scaling_x_spec();
                let syr = rhs.scaling_y_spec();
                let rox = rhs.offset.x as int;
                let roy = rhs.offset.y as int;
                if rhs.swap_axes_spec() {
                    if self.swap_axes_spec() {
                        lemma_scale_compose(v.0, sxr, roy, sys);
                        lemma_scale_compose(v.1, syr, rox, sxs);
                    } else {
                        lemma_scale_compose(v.1, syr, rox, sxs);
                        lemma_scale_compose(v.0, sxr, roy, sys);
                    }
                } else {
                    if self.swap_axes_spec() {
                        lemma_scale_compose(v.1, syr, roy, sys);
                        lemma_scale_compose(v.0, sxr, rox, sxs);
                    } else {
                        lemma_scale_compose(v.0, sxr, rox, sxs);
                        lemma_scale_compose(v.1, syr, roy, sys);
                    }
                }
            }
        }
        r
    }

    /// Gets the scaling applied to the X axis.
    pub fn scaling_x(&self) -> (r: i8)
        ensures
            r == self.scaling_x_spec(),
    {
        self.scaling_x
    }

    /// Gets the scaling applied to the Y axis.
    pub fn scaling_y(&self) -> (r: i8)
        ensures
            r == self.scaling_y_spec(),
    {
        self.scaling_y
    }

    /// Gets whether the X and Y axes are swapped after scaling.
    pub fn swaps_axes(&self) -> (r: bool)
        ensures
            r == self.swap_axes_spec(),
    {
        self.swap_axes
    }

    /// Applies this transform to a [`Vector2i`].
    pub fn apply(self, rhs: Vector2i) -> (r: Vector2i)
        requires
            self.can_apply((rhs.x as int, rhs.y as int)),
        ensures
            (r.x as int, r.y as int) == self.apply_spec((rhs.x as int, rhs.y as int)),
    {
        let sx = rhs.x * (self.scaling_x as i32);
        let sy = rhs.y * (self.scaling_y as i32);
        let (x, y): (i32, i32) = if self.swap_axes {
            (sy, sx)
        } else {
            (sx, sy)
        };
        Vector2i { x, y }.add(self.offset)
    }
}

} // verus!
