//! Tests for discrete boxes and sizes.

use geomath::{size2i, vec2i, Box2i, Size2i};

#[test]
fn box2i_only_and_minmax() {
    let b = Box2i::only(vec2i(3, 4));
    assert_eq!(b.min(), vec2i(3, 4));
    assert_eq!(b.max(), vec2i(3, 4));
    let c = Box2i::from_min_max(vec2i(-1, -2), vec2i(5, 6));
    assert_eq!(c.min(), vec2i(-1, -2));
    assert_eq!(c.max(), vec2i(5, 6));
    assert_eq!(Box2i::default(), Box2i::only(vec2i(0, 0)));
}

#[test]
fn box2i_from_min_size() {
    let b = Box2i::from_min_size(vec2i(10, -5), size2i(3, 4));
    assert_eq!(b.min(), vec2i(10, -5));
    assert_eq!(b.max(), vec2i(12, -2));
    let s = b.size();
    assert_eq!(s.x(), 3);
    assert_eq!(s.y(), 4);
}

#[test]
fn box2i_from_min_size_saturates() {
    let b = Box2i::from_min_size(vec2i(i32::MAX - 1, 0), size2i(5, 1));
    assert_eq!(b.max(), vec2i(i32::MAX, 0));
}

#[test]
fn box2i_size_spans_whole_range() {
    let b = Box2i::from_min_max(vec2i(i32::MIN, 0), vec2i(i32::MAX, 0));
    let s = b.size();
    assert_eq!(s.x_minus_1(), u32::MAX);
    assert_eq!(s.y_minus_1(), 0);
}

#[test]
fn box2i_contains() {
    let b = Box2i::from_min_max(vec2i(0, 0), vec2i(2, 3));
    assert!(b.contains(vec2i(0, 0)));
    assert!(b.contains(vec2i(2, 3)));
    assert!(b.contains(vec2i(1, 2)));
    assert!(!b.contains(vec2i(3, 3)));
    assert!(!b.contains(vec2i(-1, 0)));
    assert!(!b.contains(vec2i(1, 4)));
}

#[test]
fn box2i_overlaps() {
    let a = Box2i::from_min_max(vec2i(0, 0), vec2i(2, 2));
    let b = Box2i::from_min_max(vec2i(2, 2), vec2i(5, 5));
    let c = Box2i::from_min_max(vec2i(3, 3), vec2i(5, 5));
    assert!(a.overlaps(b));
    assert!(b.overlaps(a));
    assert!(!a.overlaps(c));
    assert!(!c.overlaps(a));
    assert!(a.overlaps(a));
}

#[test]
fn size2i_accessors() {
    let s = Size2i::new(7, 9);
    assert_eq!(s.x(), 7);
    assert_eq!(s.y(), 9);
    assert_eq!(s.x_minus_1(), 6);
    assert_eq!(s.y_minus_1(), 8);
    assert_eq!(s.to_vec(), vec2i(7, 9));
    assert_eq!(size2i(7, 9), s);
    assert_eq!(Size2i::default(), size2i(1, 1));
}

#[test]
fn size2i_add() {
    assert_eq!(size2i(2, 3).add(size2i(4, 5)), size2i(6, 8));
}
