//! Small vectors and quaternions.
use vstd::prelude::*;

verus! {

/// Generic 4D vector
#[derive(Clone, Copy, Debug, PartialEq, Eq, Structural)]
pub struct Quaternion<T> {
    /// X axis value
    pub x: T,
    /// Y axis value
    pub y: T,
    /// Z axis value
    pub z: T,
    /// W axis value
    pub w: T,
}

impl<T> Quaternion<T> {
    /// Set this quaternion from another
    pub fn set(&mut self, other: Quaternion<T>)
        ensures
            *final(self) == other,
    {
        self.x = other.x;
        self.y = other.y;
        self.z = other.z;
        self.w = other.w;
    }
}

/// Generic 3D vector
#[derive(Clone, Copy, Debug, PartialEq, Eq, Structural)]
pub struct Vector3<T> {
    /// X axis value
    pub x: T,
    /// Y axis value
    pub y: T,
    /// Z axis value
    pub z: T,
}

impl<T> Vector3<T> {
    /// Set this vector from another
    pub fn set(&mut self, other: Vector3<T>)
        ensures
            *final(self) == other,
    {
        self.x = other.x;
        self.y = other.y;
        self.z = other.z;
    }
}

impl Vector3<i16> {
    /// Creates the unit vector along X
    pub fn new() -> (r: Vector3<i16>)
        ensures
            r == (Vector3::<i16> { x: 1, y: 0, z: 0 }),
    {
        Vector3 { x: 1, y: 0, z: 0 }
    }
}

} // verus!
