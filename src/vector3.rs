use vstd::prelude::*;

verus! {

/// A three-component vector (x, y, z).
#[derive(Clone, Copy, Debug, PartialEq, Eq)]
pub struct Vector3<T> {
    pub x: T,
    pub y: T,
    pub z: T,
}

impl<T: Copy> Vector3<T> {
    pub fn new(x: T, y: T, z: T) -> (r: Self)
        ensures
            r.x == x,
            r.y == y,
            r.z == z,
    {
        Self { x, y, z }
    }

    /// Builds a vector from an `[x, y, z]` array.
    pub fn from(array: &[T; 3]) -> (r: Self)
        ensures
            r.x == array@[0],
            r.y == array@[1],
            r.z == array@[2],
    {
        Self { x: array[0], y: array[1], z: array[2] }
    }
}

impl Vector3<i64> {
    /// Component-wise sum.
    pub fn add(self, other: Self) -> (r: Self)
        requires
            i64::MIN <= self.x + other.x <= i64::MAX,
            i64::MIN <= self.y + other.y <= i64::MAX,
            i64::MIN <= self.z + other.z <= i64::MAX,
        ensures
            r.x == self.x + other.x,
            r.y == self.y + other.y,
            r.z == self.z + other.z,
    {
        Self { x: self.x + other.x, y: self.y + other.y, z: self.z + other.z }
    }
}

} // verus!
