//! Tests for axis and direction identifiers.

use geomath::{Axis2, Axis3, Axis4, Dir1, Dir2i, Dir3i};

#[test]
fn axis2_new_and_index() {
    assert_eq!(Axis2::new(0), Some(Axis2::X));
    assert_eq!(Axis2::new(1), Some(Axis2::Y));
    assert_eq!(Axis2::new(2), None);
    assert_eq!(Axis2::X.index(), 0);
    assert_eq!(Axis2::Y.index(), 1);
}

#[test]
fn axis3_new_and_index() {
    assert_eq!(Axis3::new(0), Some(Axis3::X));
    assert_eq!(Axis3::new(1), Some(Axis3::Y));
    assert_eq!(Axis3::new(2), Some(Axis3::Z));
    assert_eq!(Axis3::new(3), None);
    assert_eq!(Axis3::Z.index(), 2);
}

#[test]
fn axis4_new_and_index() {
    assert_eq!(Axis4::new(0), Some(Axis4::X));
    assert_eq!(Axis4::new(3), Some(Axis4::W));
    assert_eq!(Axis4::new(4), None);
    assert_eq!(Axis4::W.index(), 3);
}

#[test]
fn axis_defaults() {
    assert_eq!(Axis2::default(), Axis2::X);
    assert_eq!(Axis3::default(), Axis3::X);
    assert_eq!(Axis4::default(), Axis4::X);
    assert_eq!(Dir1::default(), Dir1::P);
}

#[test]
fn dir2i_new_axis_polarity() {
    assert_eq!(Dir2i::new(Axis2::X, Dir1::P), Dir2i::Xp);
    assert_eq!(Dir2i::new(Axis2::X, Dir1::N), Dir2i::Xn);
    assert_eq!(Dir2i::new(Axis2::Y, Dir1::P), Dir2i::Yp);
    assert_eq!(Dir2i::new(Axis2::Y, Dir1::N), Dir2i::Yn);
    for dir in [Dir2i::Xp, Dir2i::Xn, Dir2i::Yp, Dir2i::Yn] {
        assert_eq!(Dir2i::new(dir.axis(), dir.polarity()), dir);
    }
}

#[test]
fn dir2i_to_vector() {
    assert_eq!(Dir2i::Xp.to_vector(), geomath::vec2i(1, 0));
    assert_eq!(Dir2i::Xn.to_vector(), geomath::vec2i(-1, 0));
    assert_eq!(Dir2i::Yp.to_vector(), geomath::vec2i(0, 1));
    assert_eq!(Dir2i::Yn.to_vector(), geomath::vec2i(0, -1));
}

#[test]
fn dir3i_new_axis_polarity() {
    assert_eq!(Dir3i::new(Axis3::Z, Dir1::N), Dir3i::Zn);
    for dir in [Dir3i::Xp, Dir3i::Xn, Dir3i::Yp, Dir3i::Yn, Dir3i::Zp, Dir3i::Zn] {
        assert_eq!(Dir3i::new(dir.axis(), dir.polarity()), dir);
    }
}

#[test]
fn dir3i_to_vector() {
    assert_eq!(Dir3i::Yn.to_vector(), geomath::vec3i(0, -1, 0));
    assert_eq!(Dir3i::Zp.to_vector(), geomath::vec3i(0, 0, 1));
}
