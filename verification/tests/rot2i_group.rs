//! Tests for the discrete planar rotation group.

use geomath::{vec2i, Rotation2i};

#[test]
fn rot2i_test_compose_inverse() {
    for a in Rotation2i::all() {
        assert_eq!(a.inverse().compose(a), Rotation2i::IDENTITY);
        assert_eq!(a.compose(a.inverse()), Rotation2i::IDENTITY);
    }
}

#[test]
fn rot2i_test_compose_associative() {
    for a in Rotation2i::all() {
        for b in Rotation2i::all() {
            for c in Rotation2i::all() {
                assert_eq!(a.compose(b).compose(c), a.compose(b.compose(c)));
            }
        }
    }
}

#[test]
fn rot2i_constants() {
    assert_eq!(Rotation2i::IDENTITY, Rotation2i::XpYp);
    assert_eq!(Rotation2i::CCW_90, Rotation2i::YpXn);
    assert_eq!(Rotation2i::CW_90, Rotation2i::YnXp);
    assert_eq!(Rotation2i::FLIP, Rotation2i::XnYn);
    assert_eq!(Rotation2i::default(), Rotation2i::IDENTITY);
}

#[test]
fn rot2i_apply() {
    let v = vec2i(1, 2);
    assert_eq!(Rotation2i::XpYp.apply_vec2i(v), vec2i(1, 2));
    assert_eq!(Rotation2i::YpXn.apply_vec2i(v), vec2i(-2, 1));
    assert_eq!(Rotation2i::XnYn.apply_vec2i(v), vec2i(-1, -2));
    assert_eq!(Rotation2i::YnXp.apply_vec2i(v), vec2i(2, -1));
}

#[test]
fn rot2i_apply_quarter_turns() {
    // A counter-clockwise quarter turn carries +X to +Y.
    assert_eq!(Rotation2i::CCW_90.apply_vec2i(vec2i(1, 0)), vec2i(0, 1));
    // A clockwise quarter turn carries +X to -Y.
    assert_eq!(Rotation2i::CW_90.apply_vec2i(vec2i(1, 0)), vec2i(0, -1));
    // The half turn negates both coordinates.
    assert_eq!(Rotation2i::FLIP.apply_vec2i(vec2i(1, 2)), vec2i(-1, -2));
}

#[test]
fn rot2i_compose_examples() {
    assert_eq!(
        Rotation2i::CCW_90.compose(Rotation2i::CCW_90),
        Rotation2i::FLIP,
    );
    assert_eq!(
        Rotation2i::CW_90.compose(Rotation2i::CCW_90),
        Rotation2i::IDENTITY,
    );
    assert_eq!(
        Rotation2i::FLIP.compose(Rotation2i::CCW_90),
        Rotation2i::CW_90,
    );
}

#[test]
fn rot2i_all_distinct() {
    let elements = Rotation2i::all();
    assert_eq!(elements.len(), 4);
    for i in 0..elements.len() {
        for j in 0..i {
            assert_ne!(elements[i], elements[j]);
        }
    }
}

#[test]
fn rot2i_compose_matches_action() {
    // Composition must act like applying the two rotations in turn.
    let v = vec2i(5, -7);
    for a in Rotation2i::all() {
        for b in Rotation2i::all() {
            assert_eq!(
                a.compose(b).apply_vec2i(v),
                a.apply_vec2i(b.apply_vec2i(v)),
            );
        }
    }
}
