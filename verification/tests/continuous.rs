//! Tests for the continuous carriers: boxes, rotations, transforms, and the
//! exact discrete-to-continuous conversion tables.

use geomath::{
    Affine2, Affine3, Box2, Matrix4, Motion2, Motion3, Projective3, Rotation2, Rotation2i,
    Rotation3, Rotation3i, Scalar, Similarity2, Similarity3, Vector2, Vector3, Vector4,
};

fn s(value: f32) -> Scalar {
    Scalar { bits: value.to_bits() }
}

fn v2(x: f32, y: f32) -> Vector2 {
    Vector2 { x: s(x), y: s(y) }
}

fn v3(x: f32, y: f32, z: f32) -> Vector3 {
    Vector3 { x: s(x), y: s(y), z: s(z) }
}

fn f(value: Scalar) -> f32 {
    f32::from_bits(value.bits)
}

#[test]
fn box2_contains() {
    let b = Box2::from_min_max(v2(-1.0, 0.0), v2(2.0, 3.5));
    assert!(b.contains(v2(0.0, 1.0)));
    assert!(b.contains(v2(-1.0, 0.0)));
    assert!(b.contains(v2(2.0, 3.5)));
    assert!(!b.contains(v2(2.1, 1.0)));
    assert!(!b.contains(v2(0.0, -0.1)));
    assert!(!b.contains(v2(f32::NAN, 1.0)));
}

#[test]
fn box2_only_and_accessors() {
    let b = Box2::only(v2(4.0, -5.0));
    assert_eq!(b.min(), v2(4.0, -5.0));
    assert_eq!(b.max(), v2(4.0, -5.0));
}

#[test]
fn box2_overlaps() {
    let a = Box2::from_min_max(v2(0.0, 0.0), v2(2.0, 2.0));
    let b = Box2::from_min_max(v2(2.0, 2.0), v2(5.0, 5.0));
    let c = Box2::from_min_max(v2(3.0, 3.0), v2(5.0, 5.0));
    assert!(a.overlaps(b));
    assert!(b.overlaps(a));
    assert!(!a.overlaps(c));
}

#[test]
fn box2_bound() {
    let a = Box2::from_min_max(v2(0.0, -1.0), v2(2.0, 2.0));
    let b = Box2::from_min_max(v2(-3.0, 0.5), v2(1.0, 4.0));
    let bound = a.bound(b);
    assert_eq!(bound.min(), v2(-3.0, -1.0));
    assert_eq!(bound.max(), v2(2.0, 4.0));
}

#[test]
fn box2_bound_many() {
    let boxes = vec![
        Box2::only(v2(1.0, 5.0)),
        Box2::from_min_max(v2(-2.0, 6.0), v2(0.0, 8.0)),
        Box2::only(v2(0.5, -3.0)),
    ];
    let bound = Box2::bound_many(&boxes).unwrap();
    assert_eq!(bound.min(), v2(-2.0, -3.0));
    assert_eq!(bound.max(), v2(1.0, 8.0));
    assert!(Box2::bound_many(&Vec::new()).is_none());
}

#[test]
fn rot2_constants() {
    assert_eq!(f(Rotation2::identity().tan_half_angle()), 0.0);
    assert_eq!(f(Rotation2::ccw_90().tan_half_angle()), 1.0);
    assert_eq!(f(Rotation2::cw_90().tan_half_angle()), -1.0);
    assert_eq!(f(Rotation2::flip().tan_half_angle()), f32::INFINITY);
    assert_eq!(Rotation2::default(), Rotation2::identity());
}

#[test]
fn rot2_inverse_negates() {
    for value in [0.0f32, 1.0, -2.5, 1e18, f32::INFINITY] {
        let r = Rotation2::from_tan_half_angle(s(value));
        assert_eq!(f(r.inverse().tan_half_angle()), -value);
        assert_eq!(r.inverse().inverse(), r);
    }
}

#[test]
fn rot3_construction_and_inverse() {
    let r = Rotation3::new_unchecked(s(0.5), s(-0.5), s(0.5), s(-0.5));
    assert_eq!(f(r.scalar_part()), 0.5);
    assert_eq!(f(r.vector_part().x), -0.5);
    assert_eq!(f(r.vector_part().y), 0.5);
    assert_eq!(f(r.vector_part().z), -0.5);
    let inv = r.inverse();
    assert_eq!(f(inv.scalar_part()), 0.5);
    assert_eq!(f(inv.vector_part().x), 0.5);
    assert_eq!(f(inv.vector_part().y), -0.5);
    assert_eq!(f(inv.vector_part().z), 0.5);
    assert_eq!(Rotation3::default(), Rotation3::identity());
}

#[test]
fn rot2i_to_rot2_exact() {
    assert_eq!(Rotation2i::XpYp.to_rot2(), Rotation2::identity());
    assert_eq!(Rotation2i::YpXn.to_rot2(), Rotation2::ccw_90());
    assert_eq!(Rotation2i::XnYn.to_rot2(), Rotation2::flip());
    assert_eq!(Rotation2i::YnXp.to_rot2(), Rotation2::cw_90());
}

#[test]
fn rot3i_to_rot3_identity_and_examples() {
    let sq = core::f32::consts::SQRT_2 / 2.0;
    assert_eq!(Rotation3i::XpYpZp.to_rot3(), Rotation3::identity());
    let zp = Rotation3i::ZpXpYp.to_rot3();
    assert_eq!(f(zp.scalar_part()), 0.5);
    assert_eq!(f(zp.vector_part().x), 0.5);
    assert_eq!(f(zp.vector_part().y), 0.5);
    assert_eq!(f(zp.vector_part().z), 0.5);
    let yp = Rotation3i::YpXpZn.to_rot3();
    assert_eq!(f(yp.scalar_part()), 0.0);
    assert_eq!(f(yp.vector_part().x), sq);
    assert_eq!(f(yp.vector_part().y), sq);
    assert_eq!(f(yp.vector_part().z), 0.0);
}

#[test]
fn rot3i_to_rot3_unit_norm() {
    // Every entry of the quaternion table denotes a unit quaternion.
    for rotation in Rotation3i::all() {
        let q = rotation.to_rot3();
        let w = f(q.scalar_part());
        let x = f(q.vector_part().x);
        let y = f(q.vector_part().y);
        let z = f(q.vector_part().z);
        let norm_sqr = w * w + x * x + y * y + z * z;
        assert!((norm_sqr - 1.0).abs() < 1e-6, "not a unit quaternion: {rotation:?}");
    }
}

#[test]
fn motion2_constructors() {
    let id = Motion2::identity();
    assert_eq!(id.rotation, Rotation2::identity());
    assert_eq!(id.offset, v2(0.0, 0.0));
    let t = Motion2::translate(v2(3.0, -4.0));
    assert_eq!(t.rotation, Rotation2::identity());
    assert_eq!(t.offset, v2(3.0, -4.0));
    let r = Motion2::from_rotation(Rotation2::ccw_90());
    assert_eq!(r.linear(), Rotation2::ccw_90());
    assert_eq!(r.offset, v2(0.0, 0.0));
}

#[test]
fn similarity2_constructors() {
    let id = Similarity2::identity();
    assert_eq!(f(id.scaling), 1.0);
    let sc = Similarity2::scale(s(2.5));
    assert_eq!(f(sc.scaling), 2.5);
    assert_eq!(sc.offset, v2(0.0, 0.0));
    let t = Similarity2::translate(v2(1.0, 2.0));
    assert_eq!(f(t.scaling), 1.0);
    assert_eq!(t.offset, v2(1.0, 2.0));
}

#[test]
fn affine2_constructors() {
    let id = Affine2::identity();
    assert_eq!(f(id.linear.x.x), 1.0);
    assert_eq!(f(id.linear.x.y), 0.0);
    assert_eq!(f(id.linear.y.x), 0.0);
    assert_eq!(f(id.linear.y.y), 1.0);
    let sc = Affine2::scale(s(2.0), s(-3.0));
    assert_eq!(f(sc.linear.x.x), 2.0);
    assert_eq!(f(sc.linear.y.y), -3.0);
    assert_eq!(f(sc.linear.x.y), 0.0);
    let t = Affine2::translate(v2(5.0, 6.0));
    assert_eq!(t.offset, v2(5.0, 6.0));
    assert_eq!(t.linear, id.linear);
}

#[test]
fn motion3_and_similarity3_constructors() {
    let id = Motion3::identity();
    assert_eq!(id.rotation, Rotation3::identity());
    assert_eq!(id.offset, v3(0.0, 0.0, 0.0));
    let t = Motion3::translate(v3(1.0, 2.0, 3.0));
    assert_eq!(t.linear(), Rotation3::identity());
    assert_eq!(t.offset, v3(1.0, 2.0, 3.0));
    let r = Motion3::from_rotation(Rotation3i::ZpXpYp.to_rot3());
    assert_eq!(r.rotation, Rotation3i::ZpXpYp.to_rot3());
    let sc = Similarity3::scale(s(0.5));
    assert_eq!(f(sc.scaling), 0.5);
    assert_eq!(f(Similarity3::identity().scaling), 1.0);
    assert_eq!(Similarity3::translate(v3(1.0, 1.0, 1.0)).offset, v3(1.0, 1.0, 1.0));
}

#[test]
fn affine3_constructors() {
    let sc = Affine3::scale(s(2.0), s(3.0), s(4.0));
    assert_eq!(f(sc.linear.x.x), 2.0);
    assert_eq!(f(sc.linear.y.y), 3.0);
    assert_eq!(f(sc.linear.z.z), 4.0);
    assert_eq!(f(sc.linear.z.x), 0.0);
    let id = Affine3::identity();
    assert_eq!(f(id.linear.z.z), 1.0);
    assert_eq!(Affine3::translate(v3(7.0, 8.0, 9.0)).linear, id.linear);
}

#[test]
fn projective3_matrix_roundtrip() {
    let matrix = Matrix4 {
        x: Vector4 { x: s(1.0), y: s(2.0), z: s(3.0), w: s(4.0) },
        y: Vector4 { x: s(5.0), y: s(6.0), z: s(7.0), w: s(8.0) },
        z: Vector4 { x: s(9.0), y: s(10.0), z: s(11.0), w: s(12.0) },
        w: Vector4 { x: s(13.0), y: s(14.0), z: s(15.0), w: s(16.0) },
    };
    let p = Projective3::new(matrix);
    assert_eq!(*p.as_matrix(), matrix);
    let id = Projective3::identity();
    assert_eq!(f(id.as_matrix().x.x), 1.0);
    assert_eq!(f(id.as_matrix().w.w), 1.0);
    assert_eq!(f(id.as_matrix().x.y), 0.0);
}
