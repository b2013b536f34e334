//! Tests for the discrete vector types.

use geomath::{vec2i, vec3i, Axis2, Axis3, Vector2i, Vector3i};

#[test]
fn vec2i_construction() {
    let v = Vector2i::new(3, -4);
    assert_eq!(v.x, 3);
    assert_eq!(v.y, -4);
    assert_eq!(vec2i(3, -4), v);
    assert_eq!(Vector2i::default(), vec2i(0, 0));
}

#[test]
fn vec2i_arithmetic() {
    let a = vec2i(1, 2);
    let b = vec2i(10, -20);
    assert_eq!(a.add(b), vec2i(11, -18));
    assert_eq!(b.sub(a), vec2i(9, -22));
    assert_eq!(a.neg(), vec2i(-1, -2));
    assert_eq!(b.scale(3), vec2i(30, -60));
}

#[test]
fn vec2i_component() {
    let v = vec2i(7, 8);
    assert_eq!(v.component(Axis2::X), 7);
    assert_eq!(v.component(Axis2::Y), 8);
}

#[test]
fn vec3i_construction() {
    let v = Vector3i::new(1, -2, 3);
    assert_eq!((v.x, v.y, v.z), (1, -2, 3));
    assert_eq!(vec3i(1, -2, 3), v);
    assert_eq!(Vector3i::default(), vec3i(0, 0, 0));
}

#[test]
fn vec3i_arithmetic() {
    let a = vec3i(1, 2, 3);
    let b = vec3i(-4, 5, -6);
    assert_eq!(a.add(b), vec3i(-3, 7, -3));
    assert_eq!(a.sub(b), vec3i(5, -3, 9));
    assert_eq!(b.neg(), vec3i(4, -5, 6));
    assert_eq!(a.scale(-2), vec3i(-2, -4, -6));
}

#[test]
fn vec3i_component() {
    let v = vec3i(4, 5, 6);
    assert_eq!(v.component(Axis3::X), 4);
    assert_eq!(v.component(Axis3::Y), 5);
    assert_eq!(v.component(Axis3::Z), 6);
}
