//! The rotation group of discrete (axis-aligned) three-dimensional space: the
//! 24 proper rotations of the cube.
//!
//! Each element acts on a vector as a signed permutation of its three
//! coordinates. The composition and inverse operations are not written down as
//! tables: they search the group for the element whose action on a fixed probe
//! vector matches. The probe vector `(1, 2, 3)` has pairwise-distinct non-zero
//! coordinates, so two different signed permutations always disagree on it, and
//! the search identifies the unique correct element. That argument is proved
//! here, so the search carries a full functional contract.

use crate::rot3::Rotation3;
use crate::scalar::{
    Scalar, SCALAR_HALF_BITS, SCALAR_HALF_SQRT2_BITS, SCALAR_NEG_HALF_BITS,
    SCALAR_NEG_HALF_SQRT2_BITS, SCALAR_ONE_BITS, SCALAR_ZERO_BITS,
};
use crate::vec3i::Vector3i;
use vstd::prelude::*;

verus! {

/// A row of a signed-permutation matrix: a sign (`1` or `-1`) and the index of
/// the source coordinate that the row reads.
pub type SignedAxis = (int, int);

/// A signed-permutation matrix, described row by row: the output coordinate `i`
/// of the action is `sign_i * input[axis_i]`.
pub type SignedPerm = (SignedAxis, SignedAxis, SignedAxis);

/// The component of `v` selected by `axis`.
pub open spec fn vec_comp(v: (int, int, int), axis: int) -> int {
    if axis == 0 {
        v.0
    } else if axis == 1 {
        v.1
    } else {
        v.2
    }
}

/// The value a single row produces from input `v`.
pub open spec fn row_apply(row: SignedAxis, v: (int, int, int)) -> int {
    row.0 * vec_comp(v, row.1)
}

/// The action of a signed-permutation matrix on `v`.
pub open spec fn perm_apply(d: SignedPerm, v: (int, int, int)) -> (int, int, int) {
    (row_apply(d.0, v), row_apply(d.1, v), row_apply(d.2, v))
}

/// Whether a row is well-formed: a unit sign and an axis index below 3.
pub open spec fn row_valid(row: SignedAxis) -> bool {
    (row.0 == 1 || row.0 == -1) && 0 <= row.1 < 3
}

/// Whether every row of a signed-permutation matrix is well-formed.
pub open spec fn perm_valid(d: SignedPerm) -> bool {
    row_valid(d.0) && row_valid(d.1) && row_valid(d.2)
}

/// The row of `d` with the given index.
pub open spec fn pick_row(d: SignedPerm, index: int) -> SignedAxis {
    if index == 0 {
        d.0
    } else if index == 1 {
        d.1
    } else {
        d.2
    }
}

/// A single row of the matrix product `d1 * d2`: row `i` of the product reads,
/// through row `i` of `d1`, the row of `d2` on the axis that `d1` selects.
pub open spec fn row_compose(row: SignedAxis, d2: SignedPerm) -> SignedAxis {
    (row.0 * pick_row(d2, row.1).0, pick_row(d2, row.1).1)
}

/// The matrix product `d1 * d2`, as a signed-permutation description.
pub open spec fn perm_compose(d1: SignedPerm, d2: SignedPerm) -> SignedPerm {
    (row_compose(d1.0, d2), row_compose(d1.1, d2), row_compose(d1.2, d2))
}

/// The identity signed-permutation matrix.
pub open spec fn perm_identity() -> SignedPerm {
    ((1, 0), (1, 1), (1, 2))
}

/// The transpose of a signed-permutation matrix, which is also its inverse.
pub open spec fn perm_transpose(d: SignedPerm) -> SignedPerm {
    (transpose_row(d, 0), transpose_row(d, 1), transpose_row(d, 2))
}

/// The row of the transpose of `d` for output axis `j`: the row of `d` that
/// reads axis `j`, with its sign, pointing back at its own position.
pub open spec fn transpose_row(d: SignedPerm, j: int) -> SignedAxis {
    if d.0.1 == j {
        (d.0.0, 0)
    } else if d.1.1 == j {
        (d.1.0, 1)
    } else {
        (d.2.0, 2)
    }
}

/// The probe vector used to tell group elements apart: its coordinates are
/// pairwise distinct and non-zero, so distinct signed permutations send it to
/// distinct images.
pub open spec fn probe() -> (int, int, int) {
    (1, 2, 3)
}

/// Multiplication of integers is associative.
proof fn lemma_mul_assoc(x: int, y: int, z: int)
    by (nonlinear_arith)
    ensures
        (x * y) * z == x * (y * z),
{
}

/// The matrix product acts as the composition of the two actions.
proof fn lemma_perm_compose_apply(d1: SignedPerm, d2: SignedPerm, v: (int, int, int))
    requires
        perm_valid(d1),
        perm_valid(d2),
    ensures
        perm_apply(perm_compose(d1, d2), v) == perm_apply(d1, perm_apply(d2, v)),
{
    lemma_mul_assoc(d1.0.0, pick_row(d2, d1.0.1).0, vec_comp(v, pick_row(d2, d1.0.1).1));
    lemma_mul_assoc(d1.1.0, pick_row(d2, d1.1.1).0, vec_comp(v, pick_row(d2, d1.1.1).1));
    lemma_mul_assoc(d1.2.0, pick_row(d2, d1.2.1).0, vec_comp(v, pick_row(d2, d1.2.1).1));
}

/// The matrix product of two well-formed descriptions is well-formed.
proof fn lemma_perm_compose_valid(d1: SignedPerm, d2: SignedPerm)
    requires
        perm_valid(d1),
        perm_valid(d2),
    ensures
        perm_valid(perm_compose(d1, d2)),
{
}

/// The matrix product is associative.
proof fn lemma_perm_compose_assoc(d1: SignedPerm, d2: SignedPerm, d3: SignedPerm)
    requires
        perm_valid(d1),
        perm_valid(d2),
        perm_valid(d3),
    ensures
        perm_compose(perm_compose(d1, d2), d3) == perm_compose(d1, perm_compose(d2, d3)),
{
    lemma_mul_assoc(d1.0.0, pick_row(d2, d1.0.1).0, pick_row(d3, pick_row(d2, d1.0.1).1).0);
    lemma_mul_assoc(d1.1.0, pick_row(d2, d1.1.1).0, pick_row(d3, pick_row(d2, d1.1.1).1).0);
    lemma_mul_assoc(d1.2.0, pick_row(d2, d1.2.1).0, pick_row(d3, pick_row(d2, d1.2.1).1).0);
}

/// A well-formed row is determined by the value it takes on the probe vector:
/// the candidate values `1 * 1, ..., -1 * 3` are pairwise distinct.
#[verifier::spinoff_prover]
proof fn lemma_row_probe_faithful(r1: SignedAxis, r2: SignedAxis)
    requires
        row_valid(r1),
        row_valid(r2),
        row_apply(r1, probe()) == row_apply(r2, probe()),
    ensures
        r1 == r2,
{
    if r1.0 == 1 {
        assert(row_apply(r1, probe()) == vec_comp(probe(), r1.1));
    } else {
        assert(row_apply(r1, probe()) == -vec_comp(probe(), r1.1));
    }
    if r2.0 == 1 {
        assert(row_apply(r2, probe()) == vec_comp(probe(), r2.1));
    } else {
        assert(row_apply(r2, probe()) == -vec_comp(probe(), r2.1));
    }
    assert(r1.0 == r2.0 && r1.1 == r2.1);
}

/// A well-formed signed-permutation matrix is determined by the image of the
/// probe vector.
proof fn lemma_perm_probe_faithful(d1: SignedPerm, d2: SignedPerm)
    requires
        perm_valid(d1),
        perm_valid(d2),
        perm_apply(d1, probe()) == perm_apply(d2, probe()),
    ensures
        d1 == d2,
{
    lemma_row_probe_faithful(d1.0, d2.0);
    lemma_row_probe_faithful(d1.1, d2.1);
    lemma_row_probe_faithful(d1.2, d2.2);
    assert(d1 == (d1.0, d1.1, d1.2));
    assert(d2 == (d2.0, d2.1, d2.2));
}

/// Composing a well-formed matrix with the identity, on either side, leaves it
/// unchanged.
proof fn lemma_perm_compose_identity(d: SignedPerm)
    requires
        perm_valid(d),
    ensures
        perm_compose(d, perm_identity()) == d,
        perm_compose(perm_identity(), d) == d,
{
    assert(d == (d.0, d.1, d.2));
}

/// A rotation in discrete (axis-aligned) three-dimensional space: one of the 24
/// proper rotations of the cube.
///
/// Each element is named after the result of applying the rotation to the three
/// positive axes `(+X, +Y, +Z)`.
#[derive(Debug, Clone, Copy, PartialEq, Eq, Structural, PartialOrd, Ord, Hash)]
pub enum Rotation3i {
    XpYpZp,
    YpXpZn,
    YnXpZp,
    XnYpZn,
    XnYnZp,
    YnXnZn,
    YpXnZp,
    XpYnZn,
    ZpXpYp,
    XpZnYp,
    XnZpYp,
    ZnXpYn,
    ZnXnYp,
    XnZnYn,
    XpZpYn,
    ZpXnYn,
    YpZpXp,
    ZpYpXn,
    ZnYpXp,
    YnZpXn,
    YnZnXp,
    ZnYnXn,
    ZpYnXp,
    YpZnXn,
}

impl Rotation3i {
    /// The identity rotation.
    pub const IDENTITY: Rotation3i = Rotation3i::XpYpZp;

    /// The signed-permutation matrix this rotation acts as, row by row.
    pub open spec fn rows_spec(self) -> SignedPerm {
        match self {
            Rotation3i::XpYpZp => ((1, 0), (1, 1), (1, 2)),
            Rotation3i::YpXpZn => ((1, 1), (1, 0), (-1, 2)),
            Rotation3i::YnXpZp => ((-1, 1), (1, 0), (1, 2)),
            Rotation3i::XnYpZn => ((-1, 0), (1, 1), (-1, 2)),
            Rotation3i::XnYnZp => ((-1, 0), (-1, 1), (1, 2)),
            Rotation3i::YnXnZn => ((-1, 1), (-1, 0), (-1, 2)),
            Rotation3i::YpXnZp => ((1, 1), (-1, 0), (1, 2)),
            Rotation3i::XpYnZn => ((1, 0), (-1, 1), (-1, 2)),
            Rotation3i::ZpXpYp => ((1, 2), (1, 0), (1, 1)),
            Rotation3i::XpZnYp => ((1, 0), (-1, 2), (1, 1)),
            Rotation3i::XnZpYp => ((-1, 0), (1, 2), (1, 1)),
            Rotation3i::ZnXpYn => ((-1, 2), (1, 0), (-1, 1)),
            Rotation3i::ZnXnYp => ((-1, 2), (-1, 0), (1, 1)),
            Rotation3i::XnZnYn => ((-1, 0), (-1, 2), (-1, 1)),
            Rotation3i::XpZpYn => ((1, 0), (1, 2), (-1, 1)),
            Rotation3i::ZpXnYn => ((1, 2), (-1, 0), (-1, 1)),
            Rotation3i::YpZpXp => ((1, 1), (1, 2), (1, 0)),
            Rotation3i::ZpYpXn => ((1, 2), (1, 1), (-1, 0)),
            Rotation3i::ZnYpXp => ((-1, 2), (1, 1), (1, 0)),
            Rotation3i::YnZpXn => ((-1, 1), (1, 2), (-1, 0)),
            Rotation3i::YnZnXp => ((-1, 1), (-1, 2), (1, 0)),
            Rotation3i::ZnYnXn => ((-1, 2), (-1, 1), (-1, 0)),
            Rotation3i::ZpYnXp => ((1, 2), (-1, 1), (1, 0)),
            Rotation3i::YpZnXn => ((1, 1), (-1, 2), (-1, 0)),
        }
    }

    /// The group element acting as the given signed-permutation matrix, for the
    /// 24 matrices that are proper rotations. This is the inverse of
    /// [`Self::rows_spec`].
    pub open spec fn elem_from_rows(d: SignedPerm) -> Rotation3i {
        if d == ((1int, 0int), (1int, 1int), (1int, 2int)) {
            Rotation3i::XpYpZp
        } else if d == ((1int, 1int), (1int, 0int), (-1int, 2int)) {
            Rotation3i::YpXpZn
        } else if d == ((-1int, 1int), (1int, 0int), (1int, 2int)) {
            Rotation3i::YnXpZp
        } else if d == ((-1int, 0int), (1int, 1int), (-1int, 2int)) {
            Rotation3i::XnYpZn
        } else if d == ((-1int, 0int), (-1int, 1int), (1int, 2int)) {
            Rotation3i::XnYnZp
        } else if d == ((-1int, 1int), (-1int, 0int), (-1int, 2int)) {
            Rotation3i::YnXnZn
        } else if d == ((1int, 1int), (-1int, 0int), (1int, 2int)) {
            Rotation3i::YpXnZp
        } else if d == ((1int, 0int), (-1int, 1int), (-1int, 2int)) {
            Rotation3i::XpYnZn
        } else if d == ((1int, 2int), (1int, 0int), (1int, 1int)) {
            Rotation3i::ZpXpYp
        } else if d == ((1int, 0int), (-1int, 2int), (1int, 1int)) {
            Rotation3i::XpZnYp
        } else if d == ((-1int, 0int), (1int, 2int), (1int, 1int)) {
            Rotation3i::XnZpYp
        } else if d == ((-1int, 2int), (1int, 0int), (-1int, 1int)) {
            Rotation3i::ZnXpYn
        } else if d == ((-1int, 2int), (-1int, 0int), (1int, 1int)) {
            Rotation3i::ZnXnYp
        } else if d == ((-1int, 0int), (-1int, 2int), (-1int, 1int)) {
            Rotation3i::XnZnYn
        } else if d == ((1int, 0int), (1int, 2int), (-1int, 1int)) {
            Rotation3i::XpZpYn
        } else if d == ((1int, 2int), (-1int, 0int), (-1int, 1int)) {
            Rotation3i::ZpXnYn
        } else if d == ((1int, 1int), (1int, 2int), (1int, 0int)) {
            Rotation3i::YpZpXp
        } else if d == ((1int, 2int), (1int, 1int), (-1int, 0int)) {
            Rotation3i::ZpYpXn
        } else if d == ((-1int, 2int), (1int, 1int), (1int, 0int)) {
            Rotation3i::ZnYpXp
        } else if d == ((-1int, 1int), (1int, 2int), (-1int, 0int)) {
            Rotation3i::YnZpXn
        } else if d == ((-1int, 1int), (-1int, 2int), (1int, 0int)) {
            Rotation3i::YnZnXp
        } else if d == ((-1int, 2int), (-1int, 1int), (-1int, 0int)) {
            Rotation3i::ZnYnXn
        } else if d == ((1int, 2int), (-1int, 1int), (1int, 0int)) {
            Rotation3i::ZpYnXp
        } else {
            Rotation3i::YpZnXn
        }
    }

    /// The action of this rotation on a point of space.
    pub open spec fn apply_spec(self, v: (int, int, int)) -> (int, int, int) {
        perm_apply(self.rows_spec(), v)
    }

    /// The composition `self * rhs`: the rotation whose matrix is the product
    /// of the two matrices.
    pub open spec fn compose_spec(self, rhs: Rotation3i) -> Rotation3i {
        Self::elem_from_rows(perm_compose(self.rows_spec(), rhs.rows_spec()))
    }

    /// The inverse of this rotation: the element acting as the transpose of its
    /// matrix.
    pub open spec fn inverse_spec(self) -> Rotation3i {
        Self::elem_from_rows(perm_transpose(self.rows_spec()))
    }

    /// The index of this rotation in the fixed enumeration of the group.
    pub open spec fn index_spec(self) -> int {
        match self {
            Rotation3i::XpYpZp => 0,
            Rotation3i::YpXpZn => 1,
            Rotation3i::YnXpZp => 2,
            Rotation3i::XnYpZn => 3,
            Rotation3i::XnYnZp => 4,
            Rotation3i::YnXnZn => 5,
            Rotation3i::YpXnZp => 6,
            Rotation3i::XpYnZn => 7,
            Rotation3i::ZpXpYp => 8,
            Rotation3i::XpZnYp => 9,
            Rotation3i::XnZpYp => 10,
            Rotation3i::ZnXpYn => 11,
            Rotation3i::ZnXnYp => 12,
            Rotation3i::XnZnYn => 13,
            Rotation3i::XpZpYn => 14,
            Rotation3i::ZpXnYn => 15,
            Rotation3i::YpZpXp => 16,
            Rotation3i::ZpYpXn => 17,
            Rotation3i::ZnYpXp => 18,
            Rotation3i::YnZpXn => 19,
            Rotation3i::YnZnXp => 20,
            Rotation3i::ZnYnXn => 21,
            Rotation3i::ZpYnXp => 22,
            Rotation3i::YpZnXn => 23,
        }
    }

    /// The rotation with the given index, for indices below 24.
    pub open spec fn from_index_spec(index: int) -> Rotation3i {
        if index == 0 {
            Rotation3i::XpYpZp
        } else if index == 1 {
            Rotation3i::YpXpZn
        } else if index == 2 {
            Rotation3i::YnXpZp
        } else if index == 3 {
            Rotation3i::XnYpZn
        } else if index == 4 {
            Rotation3i::XnYnZp
        } else if index == 5 {
            Rotation3i::YnXnZn
        } else if index == 6 {
            Rotation3i::YpXnZp
        } else if index == 7 {
            Rotation3i::XpYnZn
        } else if index == 8 {
            Rotation3i::ZpXpYp
        } else if index == 9 {
            Rotation3i::XpZnYp
        } else if index == 10 {
            Rotation3i::XnZpYp
        } else if index == 11 {
            Rotation3i::ZnXpYn
        } else if index == 12 {
            Rotation3i::ZnXnYp
        } else if index == 13 {
            Rotation3i::XnZnYn
        } else if index == 14 {
            Rotation3i::XpZpYn
        } else if index == 15 {
            Rotation3i::ZpXnYn
        } else if index == 16 {
            Rotation3i::YpZpXp
        } else if index == 17 {
            Rotation3i::ZpYpXn
        } else if index == 18 {
            Rotation3i::ZnYpXp
        } else if index == 19 {
            Rotation3i::YnZpXn
        } else if index == 20 {
            Rotation3i::YnZnXp
        } else if index == 21 {
            Rotation3i::ZnYnXn
        } else if index == 22 {
            Rotation3i::ZpYnXp
        } else {
            Rotation3i::YpZnXn
        }
    }

    /// Gets the rotation with the given index in the fixed enumeration of the
    /// group.
    pub(crate) fn from_index(index: u8) -> (r: Rotation3i)
        requires
            index < 24,
        ensures
            r == Self::from_index_spec(index as int),
    {
        match index {
            0 => Rotation3i::XpYpZp,
            1 => Rotation3i::YpXpZn,
            2 => Rotation3i::YnXpZp,
            3 => Rotation3i::XnYpZn,
            4 => Rotation3i::XnYnZp,
            5 => Rotation3i::YnXnZn,
            6 => Rotation3i::YpXnZp,
            7 => Rotation3i::XpYnZn,
            8 => Rotation3i::ZpXpYp,
            9 => Rotation3i::XpZnYp,
            10 => Rotation3i::XnZpYp,
            11 => Rotation3i::ZnXpYn,
            12 => Rotation3i::ZnXnYp,
            13 => Rotation3i::XnZnYn,
            14 => Rotation3i::XpZpYn,
            15 => Rotation3i::ZpXnYn,
            16 => Rotation3i::YpZpXp,
            17 => Rotation3i::ZpYpXn,
            18 => Rotation3i::ZnYpXp,
            19 => Rotation3i::YnZpXn,
            20 => Rotation3i::YnZnXp,
            21 => Rotation3i::ZnYnXn,
            22 => Rotation3i::ZpYnXp,
            _ => Rotation3i::YpZnXn,
        }
    }

    /// Applies this rotation to a [`Vector3i`].
    pub fn apply_vec3i(&self, source: Vector3i) -> (r: Vector3i)
        requires
            source.x > i32::MIN,
            source.y > i32::MIN,
            source.z > i32::MIN,
        ensures
            (r.x as int, r.y as int, r.z as int) == self.apply_spec(
                (source.x as int, source.y as int, source.z as int),
            ),
    {
        match self {
            Rotation3i::XpYpZp => source,
            Rotation3i::YpXpZn => Vector3i { x: source.y, y: source.x, z: -source.z },
            Rotation3i::YnXpZp => Vector3i { x: -source.y, y: source.x, z: source.z },
            Rotation3i::XnYpZn => Vector3i { x: -source.x, y: source.y, z: -source.z },
            Rotation3i::XnYnZp => Vector3i { x: -source.x, y: -source.y, z: source.z },
            Rotation3i::YnXnZn => Vector3i { x: -source.y, y: -source.x, z: -source.z },
            Rotation3i::YpXnZp => Vector3i { x: source.y, y: -source.x, z: source.z },
            Rotation3i::XpYnZn => Vector3i { x: source.x, y: -source.y, z: -source.z },
            Rotation3i::ZpXpYp => Vector3i { x: source.z, y: source.x, z: source.y },
            Rotation3i::XpZnYp => Vector3i { x: source.x, y: -source.z, z: source.y },
            Rotation3i::XnZpYp => Vector3i { x: -source.x, y: source.z, z: source.y },
            Rotation3i::ZnXpYn => Vector3i { x: -source.z, y: source.x, z: -source.y },
            Rotation3i::ZnXnYp => Vector3i { x: -source.z, y: -source.x, z: source.y },
            Rotation3i::XnZnYn => Vector3i { x: -source.x, y: -source.z, z: -source.y },
            Rotation3i::XpZpYn => Vector3i { x: source.x, y: source.z, z: -source.y },
            Rotation3i::ZpXnYn => Vector3i { x: source.z, y: -source.x, z: -source.y },
            Rotation3i::YpZpXp => Vector3i { x: source.y, y: source.z, z: source.x },
            Rotation3i::ZpYpXn => Vector3i { x: source.z, y: source.y, z: -source.x },
            Rotation3i::ZnYpXp => Vector3i { x: -source.z, y: source.y, z: source.x },
            Rotation3i::YnZpXn => Vector3i { x: -source.y, y: source.z, z: -source.x },
            Rotation3i::YnZnXp => Vector3i { x: -source.y, y: -source.z, z: source.x },
            Rotation3i::ZnYnXn => Vector3i { x: -source.z, y: -source.y, z: -source.x },
            Rotation3i::ZpYnXp => Vector3i { x: source.z, y: -source.y, z: source.x },
            Rotation3i::YpZnXn => Vector3i { x: source.y, y: -source.z, z: -source.x },
        }
    }

    /// Determines the composition `self * rhs`: the rotation which rotates by
    /// `rhs` and then by `self`.
    ///
    /// The result is not read from an authored table: every candidate element
    /// is tried against the action of `self` after `rhs` on the probe vector,
    /// and the unique candidate that matches is returned.
    #[verifier::loop_isolation(false)]
    #[verifier::spinoff_prover]
    #[verifier::rlimit(100)]
    pub fn compose(self, rhs: Rotation3i) -> (r: Rotation3i)
        ensures
            r == self.compose_spec(rhs),
            forall|v: (int, int, int)| #![auto]
                r.apply_spec(v) == self.apply_spec(rhs.apply_spec(v)),
    {
        let probe_vec = Vector3i { x: 1, y: 2, z: 3 };
        let mid = rhs.apply_vec3i(probe_vec);
        proof {
            lemma_apply_probe_bounds(rhs);
        }
        let target = self.apply_vec3i(mid);
        proof {
            lemma_rot3i_rows_valid(self);
            lemma_rot3i_rows_valid(rhs);
            lemma_perm_compose_valid(self.rows_spec(), rhs.rows_spec());
            lemma_compose_closed(self, rhs);
            lemma_perm_compose_apply(self.rows_spec(), rhs.rows_spec(), probe());
        }
        let ghost target_img = self.apply_spec(rhs.apply_spec(probe()));
        assert(self.compose_spec(rhs).apply_spec(probe()) == target_img);
        assert((target.x as int, target.y as int, target.z as int) == target_img);
        let mut i: u8 = 0;
        while i < 24
            invariant
                i <= 24,
                (target.x as int, target.y as int, target.z as int) == target_img,
                self.compose_spec(rhs).apply_spec(probe()) == target_img,
                forall|j: int| #![auto]
                    0 <= j < i ==> Rotation3i::from_index_spec(j).apply_spec(probe())
                        != target_img,
            decreases 24 - i,
        {
            let c = Self::from_index(i);
            let img = c.apply_vec3i(probe_vec);
            if img.x == target.x && img.y == target.y && img.z == target.z {
                proof {
                    lemma_elem_probe_faithful(c, self.compose_spec(rhs));
                    assert forall|v: (int, int, int)| #![auto]
                        c.apply_spec(v) == self.apply_spec(rhs.apply_spec(v)) by {
                        lemma_perm_compose_apply(self.rows_spec(), rhs.rows_spec(), v);
                    }
                }
                return c;
            }
            i += 1;
        }
        proof {
            lemma_index_roundtrip(self.compose_spec(rhs));
        }
        assert(false);
        self
    }

    /// Gets the inverse of this rotation.
    ///
    /// As with [`Self::compose`], the result is found by searching the group
    /// for the element that carries the image of the probe vector back to the
    /// probe vector.
    #[verifier::loop_isolation(false)]
    #[verifier::spinoff_prover]
    #[verifier::rlimit(100)]
    pub fn inverse(&self) -> (r: Self)
        ensures
            r == self.inverse_spec(),
            forall|v: (int, int, int)| #![auto] r.apply_spec(self.apply_spec(v)) == v,
            forall|v: (int, int, int)| #![auto] self.apply_spec(r.apply_spec(v)) == v,
    {
        let probe_vec = Vector3i { x: 1, y: 2, z: 3 };
        let mid = self.apply_vec3i(probe_vec);
        proof {
            lemma_apply_probe_bounds(*self);
            lemma_rot3i_rows_valid(*self);
            lemma_rot3i_rows_valid(self.inverse_spec());
            lemma_inverse_rows(*self);
            lemma_perm_compose_apply(
                self.inverse_spec().rows_spec(),
                self.rows_spec(),
                probe(),
            );
        }
        assert(self.inverse_spec().apply_spec(self.apply_spec(probe())) == probe());
        let mut i: u8 = 0;
        while i < 24
            invariant
                i <= 24,
                (mid.x as int, mid.y as int, mid.z as int) == self.apply_spec(probe()),
                self.inverse_spec().apply_spec(self.apply_spec(probe())) == probe(),
                forall|j: int| #![auto]
                    0 <= j < i ==> Rotation3i::from_index_spec(j).apply_spec(
                        self.apply_spec(probe()),
                    ) != probe(),
            decreases 24 - i,
        {
            let c = Self::from_index(i);
            let img = c.apply_vec3i(mid);
            if img.x == 1 && img.y == 2 && img.z == 3 {
                proof {
                    lemma_found_inverse(c, *self);
                    lemma_inverse_action(*self);
                }
                return c;
            }
            i += 1;
        }
        proof {
            lemma_index_roundtrip(self.inverse_spec());
        }
        assert(false);
        *self
    }


    /// The exact quaternion of this rotation's continuous form, as the tuple
    /// `(w, x, y, z)`: every component is zero, a half, one, or half the
    /// square root of two, under either sign.
    pub open spec fn quaternion_spec(self) -> (Scalar, Scalar, Scalar, Scalar) {
        match self {
            Rotation3i::XpYpZp => (Scalar { bits: SCALAR_ONE_BITS }, Scalar { bits: SCALAR_ZERO_BITS }, Scalar { bits: SCALAR_ZERO_BITS }, Scalar { bits: SCALAR_ZERO_BITS }),
            Rotation3i::YpXpZn => (Scalar { bits: SCALAR_ZERO_BITS }, Scalar { bits: SCALAR_HALF_SQRT2_BITS }, Scalar { bits: SCALAR_HALF_SQRT2_BITS }, Scalar { bits: SCALAR_ZERO_BITS }),
            Rotation3i::YnXpZp => (Scalar { bits: SCALAR_HALF_SQRT2_BITS }, Scalar { bits: SCALAR_ZERO_BITS }, Scalar { bits: SCALAR_ZERO_BITS }, Scalar { bits: SCALAR_HALF_SQRT2_BITS }),
            Rotation3i::XnYpZn => (Scalar { bits: SCALAR_ZERO_BITS }, Scalar { bits: SCALAR_ZERO_BITS }, Scalar { bits: SCALAR_ONE_BITS }, Scalar { bits: SCALAR_ZERO_BITS }),
            Rotation3i::XnYnZp => (Scalar { bits: SCALAR_ZERO_BITS }, Scalar { bits: SCALAR_ZERO_BITS }, Scalar { bits: SCALAR_ZERO_BITS }, Scalar { bits: SCALAR_ONE_BITS }),
            Rotation3i::YnXnZn => (Scalar { bits: SCALAR_ZERO_BITS }, Scalar { bits: SCALAR_HALF_SQRT2_BITS }, Scalar { bits: SCALAR_NEG_HALF_SQRT2_BITS }, Scalar { bits: SCALAR_ZERO_BITS }),
            Rotation3i::YpXnZp => (Scalar { bits: SCALAR_HALF_SQRT2_BITS }, Scalar { bits: SCALAR_ZERO_BITS }, Scalar { bits: SCALAR_ZERO_BITS }, Scalar { bits: SCALAR_NEG_HALF_SQRT2_BITS }),
            Rotation3i::XpYnZn => (Scalar { bits: SCALAR_ZERO_BITS }, Scalar { bits: SCALAR_ONE_BITS }, Scalar { bits: SCALAR_ZERO_BITS }, Scalar { bits: SCALAR_ZERO_BITS }),
            Rotation3i::ZpXpYp => (Scalar { bits: SCALAR_HALF_BITS }, Scalar { bits: SCALAR_HALF_BITS }, Scalar { bits: SCALAR_HALF_BITS }, Scalar { bits: SCALAR_HALF_BITS }),
            Rotation3i::XpZnYp => (Scalar { bits: SCALAR_HALF_SQRT2_BITS }, Scalar { bits: SCALAR_HALF_SQRT2_BITS }, Scalar { bits: SCALAR_ZERO_BITS }, Scalar { bits: SCALAR_ZERO_BITS }),
            Rotation3i::XnZpYp => (Scalar { bits: SCALAR_ZERO_BITS }, Scalar { bits: SCALAR_ZERO_BITS }, Scalar { bits: SCALAR_HALF_SQRT2_BITS }, Scalar { bits: SCALAR_HALF_SQRT2_BITS }),
            Rotation3i::ZnXpYn => (Scalar { bits: SCALAR_HALF_BITS }, Scalar { bits: SCALAR_NEG_HALF_BITS }, Scalar { bits: SCALAR_NEG_HALF_BITS }, Scalar { bits: SCALAR_HALF_BITS }),
            Rotation3i::ZnXnYp => (Scalar { bits: SCALAR_HALF_BITS }, Scalar { bits: SCALAR_HALF_BITS }, Scalar { bits: SCALAR_NEG_HALF_BITS }, Scalar { bits: SCALAR_NEG_HALF_BITS }),
            Rotation3i::XnZnYn => (Scalar { bits: SCALAR_ZERO_BITS }, Scalar { bits: SCALAR_ZERO_BITS }, Scalar { bits: SCALAR_NEG_HALF_SQRT2_BITS }, Scalar { bits: SCALAR_HALF_SQRT2_BITS }),
            Rotation3i::XpZpYn => (Scalar { bits: SCALAR_HALF_SQRT2_BITS }, Scalar { bits: SCALAR_NEG_HALF_SQRT2_BITS }, Scalar { bits: SCALAR_ZERO_BITS }, Scalar { bits: SCALAR_ZERO_BITS }),
            Rotation3i::ZpXnYn => (Scalar { bits: SCALAR_HALF_BITS }, Scalar { bits: SCALAR_NEG_HALF_BITS }, Scalar { bits: SCALAR_HALF_BITS }, Scalar { bits: SCALAR_NEG_HALF_BITS }),
            Rotation3i::YpZpXp => (Scalar { bits: SCALAR_HALF_BITS }, Scalar { bits: SCALAR_NEG_HALF_BITS }, Scalar { bits: SCALAR_NEG_HALF_BITS }, Scalar { bits: SCALAR_NEG_HALF_BITS }),
            Rotation3i::ZpYpXn => (Scalar { bits: SCALAR_HALF_SQRT2_BITS }, Scalar { bits: SCALAR_ZERO_BITS }, Scalar { bits: SCALAR_HALF_SQRT2_BITS }, Scalar { bits: SCALAR_ZERO_BITS }),
            Rotation3i::ZnYpXp => (Scalar { bits: SCALAR_HALF_SQRT2_BITS }, Scalar { bits: SCALAR_ZERO_BITS }, Scalar { bits: SCALAR_NEG_HALF_SQRT2_BITS }, Scalar { bits: SCALAR_ZERO_BITS }),
            Rotation3i::YnZpXn => (Scalar { bits: SCALAR_HALF_BITS }, Scalar { bits: SCALAR_NEG_HALF_BITS }, Scalar { bits: SCALAR_HALF_BITS }, Scalar { bits: SCALAR_HALF_BITS }),
            Rotation3i::YnZnXp => (Scalar { bits: SCALAR_HALF_BITS }, Scalar { bits: SCALAR_HALF_BITS }, Scalar { bits: SCALAR_NEG_HALF_BITS }, Scalar { bits: SCALAR_HALF_BITS }),
            Rotation3i::ZnYnXn => (Scalar { bits: SCALAR_ZERO_BITS }, Scalar { bits: SCALAR_HALF_SQRT2_BITS }, Scalar { bits: SCALAR_ZERO_BITS }, Scalar { bits: SCALAR_NEG_HALF_SQRT2_BITS }),
            Rotation3i::ZpYnXp => (Scalar { bits: SCALAR_ZERO_BITS }, Scalar { bits: SCALAR_HALF_SQRT2_BITS }, Scalar { bits: SCALAR_ZERO_BITS }, Scalar { bits: SCALAR_HALF_SQRT2_BITS }),
            Rotation3i::YpZnXn => (Scalar { bits: SCALAR_HALF_BITS }, Scalar { bits: SCALAR_HALF_BITS }, Scalar { bits: SCALAR_HALF_BITS }, Scalar { bits: SCALAR_NEG_HALF_BITS }),
        }
    }

    /// Converts this rotation to a [`Rotation3`]: each of the 24 elements has
    /// one exact quaternion form.
    pub fn to_rot3(self) -> (r: Rotation3)
        ensures
            r.scalar_part_spec() == self.quaternion_spec().0,
            r.vector_part_spec().x == self.quaternion_spec().1,
            r.vector_part_spec().y == self.quaternion_spec().2,
            r.vector_part_spec().z == self.quaternion_spec().3,
    {
        match self {
            Rotation3i::XpYpZp => Rotation3::new_unchecked(
                Scalar { bits: SCALAR_ONE_BITS },
                Scalar { bits: SCALAR_ZERO_BITS },
                Scalar { bits: SCALAR_ZERO_BITS },
                Scalar { bits: SCALAR_ZERO_BITS },
            ),
            Rotation3i::YpXpZn => Rotation3::new_unchecked(
                Scalar { bits: SCALAR_ZERO_BITS },
                Scalar { bits: SCALAR_HALF_SQRT2_BITS },
                Scalar { bits: SCALAR_HALF_SQRT2_BITS },
                Scalar { bits: SCALAR_ZERO_BITS },
            ),
            Rotation3i::YnXpZp => Rotation3::new_unchecked(
                Scalar { bits: SCALAR_HALF_SQRT2_BITS },
                Scalar { bits: SCALAR_ZERO_BITS },
                Scalar { bits: SCALAR_ZERO_BITS },
                Scalar { bits: SCALAR_HALF_SQRT2_BITS },
            ),
            Rotation3i::XnYpZn => Rotation3::new_unchecked(
                Scalar { bits: SCALAR_ZERO_BITS },
                Scalar { bits: SCALAR_ZERO_BITS },
                Scalar { bits: SCALAR_ONE_BITS },
                Scalar { bits: SCALAR_ZERO_BITS },
            ),
            Rotation3i::XnYnZp => Rotation3::new_unchecked(
                Scalar { bits: SCALAR_ZERO_BITS },
                Scalar { bits: SCALAR_ZERO_BITS },
                Scalar { bits: SCALAR_ZERO_BITS },
                Scalar { bits: SCALAR_ONE_BITS },
            ),
            Rotation3i::YnXnZn => Rotation3::new_unchecked(
                Scalar { bits: SCALAR_ZERO_BITS },
                Scalar { bits: SCALAR_HALF_SQRT2_BITS },
                Scalar { bits: SCALAR_NEG_HALF_SQRT2_BITS },
                Scalar { bits: SCALAR_ZERO_BITS },
            ),
            Rotation3i::YpXnZp => Rotation3::new_unchecked(
                Scalar { bits: SCALAR_HALF_SQRT2_BITS },
                Scalar { bits: SCALAR_ZERO_BITS },
                Scalar { bits: SCALAR_ZERO_BITS },
                Scalar { bits: SCALAR_NEG_HALF_SQRT2_BITS },
            ),
            Rotation3i::XpYnZn => Rotation3::new_unchecked(
                Scalar { bits: SCALAR_ZERO_BITS },
                Scalar { bits: SCALAR_ONE_BITS },
                Scalar { bits: SCALAR_ZERO_BITS },
                Scalar { bits: SCALAR_ZERO_BITS },
            ),
            Rotation3i::ZpXpYp => Rotation3::new_unchecked(
                Scalar { bits: SCALAR_HALF_BITS },
                Scalar { bits: SCALAR_HALF_BITS },
                Scalar { bits: SCALAR_HALF_BITS },
                Scalar { bits: SCALAR_HALF_BITS },
            ),
            Rotation3i::XpZnYp => Rotation3::new_unchecked(
                Scalar { bits: SCALAR_HALF_SQRT2_BITS },
                Scalar { bits: SCALAR_HALF_SQRT2_BITS },
                Scalar { bits: SCALAR_ZERO_BITS },
                Scalar { bits: SCALAR_ZERO_BITS },
            ),
            Rotation3i::XnZpYp => Rotation3::new_unchecked(
                Scalar { bits: SCALAR_ZERO_BITS },
                Scalar { bits: SCALAR_ZERO_BITS },
                Scalar { bits: SCALAR_HALF_SQRT2_BITS },
                Scalar { bits: SCALAR_HALF_SQRT2_BITS },
            ),
            Rotation3i::ZnXpYn => Rotation3::new_unchecked(
                Scalar { bits: SCALAR_HALF_BITS },
                Scalar { bits: SCALAR_NEG_HALF_BITS },
                Scalar { bits: SCALAR_NEG_HALF_BITS },
                Scalar { bits: SCALAR_HALF_BITS },
            ),
            Rotation3i::ZnXnYp => Rotation3::new_unchecked(
                Scalar { bits: SCALAR_HALF_BITS },
                Scalar { bits: SCALAR_HALF_BITS },
                Scalar { bits: SCALAR_NEG_HALF_BITS },
                Scalar { bits: SCALAR_NEG_HALF_BITS },
            ),
            Rotation3i::XnZnYn => Rotation3::new_unchecked(
                Scalar { bits: SCALAR_ZERO_BITS },
                Scalar { bits: SCALAR_ZERO_BITS },
                Scalar { bits: SCALAR_NEG_HALF_SQRT2_BITS },
                Scalar { bits: SCALAR_HALF_SQRT2_BITS },
            ),
            Rotation3i::XpZpYn => Rotation3::new_unchecked(
                Scalar { bits: SCALAR_HALF_SQRT2_BITS },
                Scalar { bits: SCALAR_NEG_HALF_SQRT2_BITS },
                Scalar { bits: SCALAR_ZERO_BITS },
                Scalar { bits: SCALAR_ZERO_BITS },
            ),
            Rotation3i::ZpXnYn => Rotation3::new_unchecked(
                Scalar { bits: SCALAR_HALF_BITS },
                Scalar { bits: SCALAR_NEG_HALF_BITS },
                Scalar { bits: SCALAR_HALF_BITS },
                Scalar { bits: SCALAR_NEG_HALF_BITS },
            ),
            Rotation3i::YpZpXp => Rotation3::new_unchecked(
                Scalar { bits: SCALAR_HALF_BITS },
                Scalar { bits: SCALAR_NEG_HALF_BITS },
                Scalar { bits: SCALAR_NEG_HALF_BITS },
                Scalar { bits: SCALAR_NEG_HALF_BITS },
            ),
            Rotation3i::ZpYpXn => Rotation3::new_unchecked(
                Scalar { bits: SCALAR_HALF_SQRT2_BITS },
                Scalar { bits: SCALAR_ZERO_BITS },
                Scalar { bits: SCALAR_HALF_SQRT2_BITS },
                Scalar { bits: SCALAR_ZERO_BITS },
            ),
            Rotation3i::ZnYpXp => Rotation3::new_unchecked(
                Scalar { bits: SCALAR_HALF_SQRT2_BITS },
                Scalar { bits: SCALAR_ZERO_BITS },
                Scalar { bits: SCALAR_NEG_HALF_SQRT2_BITS },
                Scalar { bits: SCALAR_ZERO_BITS },
            ),
            Rotation3i::YnZpXn => Rotation3::new_unchecked(
                Scalar { bits: SCALAR_HALF_BITS },
                Scalar { bits: SCALAR_NEG_HALF_BITS },
                Scalar { bits: SCALAR_HALF_BITS },
                Scalar { bits: SCALAR_HALF_BITS },
            ),
            Rotation3i::YnZnXp => Rotation3::new_unchecked(
                Scalar { bits: SCALAR_HALF_BITS },
                Scalar { bits: SCALAR_HALF_BITS },
                Scalar { bits: SCALAR_NEG_HALF_BITS },
                Scalar { bits: SCALAR_HALF_BITS },
            ),
            Rotation3i::ZnYnXn => Rotation3::new_unchecked(
                Scalar { bits: SCALAR_ZERO_BITS },
                Scalar { bits: SCALAR_HALF_SQRT2_BITS },
                Scalar { bits: SCALAR_ZERO_BITS },
                Scalar { bits: SCALAR_NEG_HALF_SQRT2_BITS },
            ),
            Rotation3i::ZpYnXp => Rotation3::new_unchecked(
                Scalar { bits: SCALAR_ZERO_BITS },
                Scalar { bits: SCALAR_HALF_SQRT2_BITS },
                Scalar { bits: SCALAR_ZERO_BITS },
                Scalar { bits: SCALAR_HALF_SQRT2_BITS },
            ),
            Rotation3i::YpZnXn => Rotation3::new_unchecked(
                Scalar { bits: SCALAR_HALF_BITS },
                Scalar { bits: SCALAR_HALF_BITS },
                Scalar { bits: SCALAR_HALF_BITS },
                Scalar { bits: SCALAR_NEG_HALF_BITS },
            ),
        }
    }

    /// Gets every element of the group, in index order.
    pub fn all() -> (r: Vec<Rotation3i>)
        ensures
            r@.len() == 24,
            forall|i: int| 0 <= i < 24 ==> r@[i] == Self::from_index_spec(i),
    {
        let mut r: Vec<Rotation3i> = Vec::new();
        let mut i: u8 = 0;
        while i < 24
            invariant
                i <= 24,
                r@.len() == i,
                forall|j: int| 0 <= j < i ==> r@[j] == Self::from_index_spec(j),
            decreases 24 - i,
        {
            r.push(Self::from_index(i));
            i += 1;
        }
        r
    }
}

impl Default for Rotation3i {
    fn default() -> (r: Self)
        ensures
            r == Rotation3i::XpYpZp,
    {
        Rotation3i::XpYpZp
    }
}

/// Every element's matrix is a well-formed signed permutation.
proof fn lemma_rot3i_rows_valid(c: Rotation3i)
    ensures
        perm_valid(c.rows_spec()),
{
}

/// The image of the probe vector under any element has small coordinates.
proof fn lemma_apply_probe_bounds(c: Rotation3i)
    ensures
        -3 <= c.apply_spec(probe()).0 <= 3,
        -3 <= c.apply_spec(probe()).1 <= 3,
        -3 <= c.apply_spec(probe()).2 <= 3,
{
}

/// Decoding an element's matrix yields the element back: the matrix description
/// is a faithful encoding of the group.
proof fn lemma_elem_from_rows_roundtrip(c: Rotation3i)
    ensures
        Rotation3i::elem_from_rows(c.rows_spec()) == c,
{
}

/// Every element sits at its own index in the fixed enumeration.
proof fn lemma_index_roundtrip(c: Rotation3i)
    ensures
        0 <= c.index_spec() < 24,
        Rotation3i::from_index_spec(c.index_spec()) == c,
{
}

/// The group is closed under composition: the matrix product of two elements'
/// matrices is again an element's matrix, so decoding it with
/// [`Rotation3i::elem_from_rows`] is exact.
#[verifier::spinoff_prover]
#[verifier::rlimit(100)]
proof fn lemma_compose_closed(a: Rotation3i, b: Rotation3i)
    ensures
        a.compose_spec(b).rows_spec() == perm_compose(a.rows_spec(), b.rows_spec()),
{
}

/// Two elements that agree on the probe vector are equal.
proof fn lemma_elem_probe_faithful(c: Rotation3i, d: Rotation3i)
    requires
        c.apply_spec(probe()) == d.apply_spec(probe()),
    ensures
        c == d,
{
    lemma_rot3i_rows_valid(c);
    lemma_rot3i_rows_valid(d);
    lemma_perm_probe_faithful(c.rows_spec(), d.rows_spec());
    lemma_elem_from_rows_roundtrip(c);
    lemma_elem_from_rows_roundtrip(d);
}

/// The inverse element's matrix is a two-sided matrix inverse.
#[verifier::spinoff_prover]
#[verifier::rlimit(100)]
proof fn lemma_inverse_rows(a: Rotation3i)
    ensures
        perm_compose(a.inverse_spec().rows_spec(), a.rows_spec()) == perm_identity(),
        perm_compose(a.rows_spec(), a.inverse_spec().rows_spec()) == perm_identity(),
{
}

/// An element that carries the image of the probe vector under `a` back to the
/// probe vector is the inverse of `a`.
proof fn lemma_found_inverse(c: Rotation3i, a: Rotation3i)
    requires
        c.apply_spec(a.apply_spec(probe())) == probe(),
    ensures
        c == a.inverse_spec(),
{
    lemma_rot3i_rows_valid(c);
    lemma_rot3i_rows_valid(a);
    lemma_rot3i_rows_valid(a.inverse_spec());
    let dc = c.rows_spec();
    let da = a.rows_spec();
    let di = a.inverse_spec().rows_spec();
    lemma_perm_compose_valid(dc, da);
    lemma_perm_compose_apply(dc, da, probe());
    lemma_perm_probe_faithful(perm_compose(dc, da), perm_identity());
    lemma_inverse_rows(a);
    lemma_perm_compose_assoc(dc, da, di);
    lemma_perm_compose_identity(dc);
    lemma_perm_compose_identity(di);
    lemma_elem_from_rows_roundtrip(c);
    lemma_elem_from_rows_roundtrip(a.inverse_spec());
}

/// The inverse element's action undoes the element's action, on every vector
/// and on either side.
proof fn lemma_inverse_action(a: Rotation3i)
    ensures
        forall|v: (int, int, int)| #![auto]
            a.inverse_spec().apply_spec(a.apply_spec(v)) == v,
        forall|v: (int, int, int)| #![auto]
            a.apply_spec(a.inverse_spec().apply_spec(v)) == v,
{
    lemma_rot3i_rows_valid(a);
    lemma_rot3i_rows_valid(a.inverse_spec());
    lemma_inverse_rows(a);
    let da = a.rows_spec();
    let di = a.inverse_spec().rows_spec();
    assert forall|v: (int, int, int)| #![auto]
        a.inverse_spec().apply_spec(a.apply_spec(v)) == v by {
        lemma_perm_compose_apply(di, da, v);
        assert((v.0, v.1, v.2) == v);
    }
    assert forall|v: (int, int, int)| #![auto]
        a.apply_spec(a.inverse_spec().apply_spec(v)) == v by {
        lemma_perm_compose_apply(da, di, v);
        assert((v.0, v.1, v.2) == v);
    }
}

/// Composition in the spatial group is associative.
pub proof fn lemma_rot3i_compose_assoc(a: Rotation3i, b: Rotation3i, c: Rotation3i)
    ensures
        a.compose_spec(b).compose_spec(c) == a.compose_spec(b.compose_spec(c)),
{
    lemma_rot3i_rows_valid(a);
    lemma_rot3i_rows_valid(b);
    lemma_rot3i_rows_valid(c);
    lemma_compose_closed(a, b);
    lemma_compose_closed(b, c);
    lemma_perm_compose_assoc(a.rows_spec(), b.rows_spec(), c.rows_spec());
}

/// Composing an element with its inverse, on either side, yields the identity.
pub proof fn lemma_rot3i_inverse_cancels(a: Rotation3i)
    ensures
        a.inverse_spec().compose_spec(a) == Rotation3i::IDENTITY,
        a.compose_spec(a.inverse_spec()) == Rotation3i::IDENTITY,
{
    lemma_inverse_rows(a);
}

} // verus!
