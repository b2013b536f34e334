//! Construction conventions for view and projection transforms.
//!
//! The convention assumes that, for all objects, positive X points to the
//! right, positive Y points up, and negative Z points forward. Normalized
//! device coordinates cover [-1, 1] x [-1, 1] x [0, 1], with higher Z values
//! further away from the camera. A transform type implements these traits for
//! whatever vector and scalar types it is built on.

use vstd::prelude::*;

verus! {

/// A transformation which supports the [`LookTowards::look_towards`] method.
pub trait LookTowards<V>: Sized {
    /// Constructs an object-to-world transform which rotates an object to face
    /// the given direction.
    fn look_towards(dir: V) -> Self;
}

/// A transformation which supports the [`LookAt::look_at`] method.
pub trait LookAt<V>: Sized {
    /// Constructs an object-to-world transform which positions the object at
    /// the given position and rotates it to face the given target.
    ///
    /// Note that this needs to be inverted to get a world-to-view transform,
    /// which is more useful for cameras.
    fn look_at(pos: V, target: V) -> Self;
}

/// A transformation which supports constructing perspective projection
/// transforms.
pub trait Perspective<S>: Sized {
    /// Constructs a perspective transform with the given aspect ratio, field
    /// of view, and near and far clipping distances.
    fn perspective(aspect_ratio: S, fov_y: S, near_z: S, far_z: S) -> Self;
}

} // verus!
