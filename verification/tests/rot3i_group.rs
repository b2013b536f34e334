//! Tests for the discrete spatial rotation group: the 24 proper rotations of
//! the cube.

use geomath::{vec3i, Rotation3i};

#[test]
fn rot3i_test_compose_inverse() {
    for a in Rotation3i::all() {
        assert_eq!(a.inverse().compose(a), Rotation3i::IDENTITY);
        assert_eq!(a.compose(a.inverse()), Rotation3i::IDENTITY);
    }
}

#[test]
fn rot3i_test_compose_associative() {
    for a in Rotation3i::all() {
        for b in Rotation3i::all() {
            for c in Rotation3i::all() {
                assert_eq!(a.compose(b).compose(c), a.compose(b.compose(c)));
            }
        }
    }
}

#[test]
fn rot3i_apply_examples() {
    let v = vec3i(1, 2, 3);
    assert_eq!(Rotation3i::XpYpZp.apply_vec3i(v), vec3i(1, 2, 3));
    assert_eq!(Rotation3i::YpXpZn.apply_vec3i(v), vec3i(2, 1, -3));
    assert_eq!(Rotation3i::ZpXpYp.apply_vec3i(v), vec3i(3, 1, 2));
    assert_eq!(Rotation3i::XnZnYn.apply_vec3i(v), vec3i(-1, -3, -2));
    assert_eq!(Rotation3i::YpZnXn.apply_vec3i(v), vec3i(2, -3, -1));
    assert_eq!(Rotation3i::ZnYnXn.apply_vec3i(v), vec3i(-3, -2, -1));
}

#[test]
fn rot3i_probe_images_distinct() {
    // The action on the probe vector tells every pair of elements apart; this
    // is what lets composition and inversion be found by search.
    let probe = vec3i(1, 2, 3);
    let elements = Rotation3i::all();
    assert_eq!(elements.len(), 24);
    for i in 0..elements.len() {
        for j in 0..i {
            assert_ne!(
                elements[i].apply_vec3i(probe),
                elements[j].apply_vec3i(probe),
            );
        }
    }
}

#[test]
fn rot3i_compose_examples() {
    // Cycling the axes twice cycles them the other way.
    assert_eq!(
        Rotation3i::ZpXpYp.compose(Rotation3i::ZpXpYp),
        Rotation3i::YpZpXp,
    );
    // Composition in the cube group is not commutative.
    assert_eq!(
        Rotation3i::YpXpZn.compose(Rotation3i::ZpXpYp),
        Rotation3i::XpZpYn,
    );
    assert_eq!(
        Rotation3i::ZpXpYp.compose(Rotation3i::YpXpZn),
        Rotation3i::ZnYpXp,
    );
}

#[test]
fn rot3i_inverse_examples() {
    assert_eq!(Rotation3i::XpYpZp.inverse(), Rotation3i::XpYpZp);
    assert_eq!(Rotation3i::ZpXpYp.inverse(), Rotation3i::YpZpXp);
    assert_eq!(Rotation3i::YpXpZn.inverse(), Rotation3i::YpXpZn);
}

#[test]
fn rot3i_compose_matches_action() {
    // Composition must act like applying the two rotations in turn.
    let v = vec3i(5, -7, 11);
    for a in Rotation3i::all() {
        for b in Rotation3i::all() {
            assert_eq!(
                a.compose(b).apply_vec3i(v),
                a.apply_vec3i(b.apply_vec3i(v)),
            );
        }
    }
}

#[test]
fn rot3i_inverse_undoes_apply() {
    let v = vec3i(4, -9, 2);
    for a in Rotation3i::all() {
        assert_eq!(a.inverse().apply_vec3i(a.apply_vec3i(v)), v);
        assert_eq!(a.apply_vec3i(a.inverse().apply_vec3i(v)), v);
    }
}

#[test]
fn rot3i_default_is_identity() {
    assert_eq!(Rotation3i::default(), Rotation3i::IDENTITY);
    assert_eq!(Rotation3i::IDENTITY, Rotation3i::XpYpZp);
}
