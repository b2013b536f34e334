//! Tests for discrete rigid motions and orthogonal transforms.

use geomath::{vec2i, Motion2i, Ortho2i, Rotation2i};

#[test]
fn test_compose_ortho() {
    let a = Motion2i::from_rotation(Rotation2i::CW_90).compose(Motion2i::translate(vec2i(1, 2)));
    let b = Ortho2i::scale(-5, 7);
    let c = Motion2i::from_rotation(Rotation2i::CCW_90).compose(Motion2i::translate(vec2i(3, 4)));
    let x = vec2i(-4, 9);
    assert_eq!(
        Ortho2i::from_motion(a).compose(b).compose(Ortho2i::from_motion(c)),
        Ortho2i::from_motion(a).compose(b.compose(Ortho2i::from_motion(c))),
    );
    assert_eq!(
        Ortho2i::from_motion(a).compose(b).compose(Ortho2i::from_motion(c)).apply(x),
        a.apply(b.apply(c.apply(x))),
    );
}

#[test]
fn motion2i_identity_and_translate() {
    let id = Motion2i::identity();
    assert_eq!(id.apply(vec2i(5, -6)), vec2i(5, -6));
    assert_eq!(id.linear(), Rotation2i::IDENTITY);
    let t = Motion2i::translate(vec2i(3, 4));
    assert_eq!(t.apply(vec2i(1, 1)), vec2i(4, 5));
    assert_eq!(t.offset, vec2i(3, 4));
}

#[test]
fn motion2i_from_rotation() {
    let m = Motion2i::from_rotation(Rotation2i::CCW_90);
    assert_eq!(m.apply(vec2i(1, 0)), vec2i(0, 1));
    assert_eq!(m.linear(), Rotation2i::CCW_90);
    assert_eq!(m.offset, vec2i(0, 0));
}

#[test]
fn motion2i_inverse() {
    let m = Motion2i { rotation: Rotation2i::CCW_90, offset: vec2i(3, 4) };
    let inv = m.inverse();
    assert_eq!(inv.rotation, Rotation2i::CW_90);
    let v = vec2i(5, 7);
    assert_eq!(inv.apply(m.apply(v)), v);
    assert_eq!(m.apply(inv.apply(v)), v);
}

#[test]
fn motion2i_compose() {
    let a = Motion2i { rotation: Rotation2i::CCW_90, offset: vec2i(1, 0) };
    let b = Motion2i { rotation: Rotation2i::FLIP, offset: vec2i(0, 2) };
    let v = vec2i(4, -3);
    assert_eq!(a.compose(b).apply(v), a.apply(b.apply(v)));
    assert_eq!(a.compose(b).rotation, Rotation2i::CW_90);
}

#[test]
fn motion2i_compose_associative() {
    let a = Motion2i { rotation: Rotation2i::CCW_90, offset: vec2i(1, 2) };
    let b = Motion2i { rotation: Rotation2i::YnXp, offset: vec2i(-3, 5) };
    let c = Motion2i { rotation: Rotation2i::XnYn, offset: vec2i(7, -1) };
    assert_eq!(a.compose(b).compose(c), a.compose(b.compose(c)));
}

#[test]
fn ortho2i_identity_translate_scale() {
    let v = vec2i(3, -8);
    assert_eq!(Ortho2i::identity().apply(v), v);
    assert_eq!(Ortho2i::translate(vec2i(1, -1)).apply(v), vec2i(4, -9));
    assert_eq!(Ortho2i::scale(2, -3).apply(v), vec2i(6, 24));
}

#[test]
fn ortho2i_from_rotation() {
    let v = vec2i(1, 2);
    for r in Rotation2i::all() {
        assert_eq!(Ortho2i::from_rotation(r).apply(v), r.apply_vec2i(v));
    }
}

#[test]
fn ortho2i_from_motion_matches_motion() {
    let v = vec2i(-6, 11);
    for r in Rotation2i::all() {
        let m = Motion2i { rotation: r, offset: vec2i(2, -9) };
        assert_eq!(Ortho2i::from_motion(m).apply(v), m.apply(v));
    }
}

#[test]
fn ortho2i_compose_matches_action() {
    let a = Ortho2i::scale(2, -3);
    let b = Ortho2i::from_motion(Motion2i {
        rotation: Rotation2i::CCW_90,
        offset: vec2i(4, -1),
    });
    let v = vec2i(5, 6);
    assert_eq!(a.compose(b).apply(v), a.apply(b.apply(v)));
    assert_eq!(b.compose(a).apply(v), b.apply(a.apply(v)));
}
