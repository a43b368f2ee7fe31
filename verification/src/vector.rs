//! Vectors in the blimp's frame: `x` to the right, `y` forward, `z` up.
use crate::number::{lawful, plus, Number};
use vstd::prelude::*;

verus! {

/// A vector in three dimensions.
#[derive(Copy, Debug, PartialEq)]
pub struct Vector3<D> {
    pub x: D,
    pub y: D,
    pub z: D,
}

impl<D: Copy> Clone for Vector3<D> {
    fn clone(&self) -> (copy: Self)
        ensures
            copy == *self,
    {
        *self
    }
}

/// The vector with the given components, if they can all be computed.
pub open spec fn vector<D>(x: Option<D>, y: Option<D>, z: Option<D>) -> Option<Vector3<D>> {
    match (x, y, z) {
        (Some(x), Some(y), Some(z)) => Some(Vector3 { x, y, z }),
        _ => None,
    }
}

/// The sum of two vectors, component by component.
pub open spec fn vector_sum<D: Number>(a: Vector3<D>, b: Vector3<D>) -> Option<Vector3<D>> {
    vector(plus(Some(a.x), Some(b.x)), plus(Some(a.y), Some(b.y)), plus(Some(a.z), Some(b.z)))
}

impl<D: Number + Copy> Vector3<D> {
    /// The sum of this vector and `other`.
    pub fn plus(self, other: Vector3<D>) -> (sum: Vector3<D>)
        requires
            lawful::<D>(),
            vector_sum(self, other) is Some,
        ensures
            vector_sum(self, other) == Some(sum),
    {
        Vector3 { x: self.x + other.x, y: self.y + other.y, z: self.z + other.z }
    }
}

} // verus!
