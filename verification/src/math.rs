use vstd::prelude::*;

verus! {

/// A three-component vector. The scalar type `S` carries the components;
/// the vector algebra itself is evaluated by the collaborator that owns the
/// scalar arithmetic, so this crate only states what the components are.
#[derive(Clone, Copy, Debug)]
pub struct Vec3<S> {
    pub x: S,
    pub y: S,
    pub z: S,
}

impl<S> Vec3<S> {
    /// A vector from its three components.
    pub fn new(x: S, y: S, z: S) -> (v: Self)
        ensures
            v.x == x,
            v.y == y,
            v.z == z,
    {
        Vec3 { x, y, z }
    }
}

/// A quaternion: a scalar part `r` and the three imaginary parts `i`, `j`,
/// `k`. A rotation is a quaternion of unit magnitude.
#[derive(Clone, Copy, Debug)]
pub struct Quat<S> {
    pub r: S,
    pub i: S,
    pub j: S,
    pub k: S,
}

impl<S> Quat<S> {
    /// A quaternion from its four components.
    pub fn new(r: S, i: S, j: S, k: S) -> (q: Self)
        ensures
            q.r == r,
            q.i == i,
            q.j == j,
            q.k == k,
    {
        Quat { r, i, j, k }
    }
}

} // verus!
