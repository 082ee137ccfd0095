use vstd::prelude::*;

verus! {

/// Placement of an object in the world: a position, a rotation and a scale.
/// The component types are opaque to the core (the application shell uses
/// its math library's vector and quaternion); composing them into a model
/// matrix is floating-point work and happens outside the core.
#[derive(Debug, Clone, Copy, PartialEq, Eq, Structural)]
pub struct Transform<V, Q> {
    pub position: V,
    pub rotation: Q,
    pub scale: V,
}

impl<V: Copy, Q: Copy> Transform<V, Q> {
    /// A transform from its three components.
    pub fn new(position: V, rotation: Q, scale: V) -> (t: Transform<V, Q>)
        ensures
            t == (Transform { position, rotation, scale }),
    {
        Transform { position, rotation, scale }
    }

    /// The same transform with the position replaced.
    pub fn with_position(self, position: V) -> (t: Transform<V, Q>)
        ensures
            t == (Transform { position, ..self }),
    {
        Transform { position, ..self }
    }

    /// The same transform with the rotation replaced.
    pub fn with_rotation(self, rotation: Q) -> (t: Transform<V, Q>)
        ensures
            t == (Transform { rotation, ..self }),
    {
        Transform { rotation, ..self }
    }

    /// The same transform with the scale replaced.
    pub fn with_scale(self, scale: V) -> (t: Transform<V, Q>)
        ensures
            t == (Transform { scale, ..self }),
    {
        Transform { scale, ..self }
    }

    /// Move the object: replace the position, keeping rotation and scale.
    pub fn set_position(&mut self, position: V)
        ensures
            *final(self) == (Transform { position, ..*old(self) }),
    {
        self.position = position;
    }
}

} // verus!
