//! Vectors, quaternions and matrices as plain records of scalars.
//!
//! Only what moves components around or places constants is computed here;
//! it is exact. Products, inverses and rotations round, and belong to an
//! [`Arithmetic`](crate::arithmetic::Arithmetic).

use vstd::prelude::*;
use crate::scalar::Scalar;

verus! {

/// A vector of three components.
#[derive(Clone, Copy, Debug)]
pub struct Vector3 {
    pub x: Scalar,
    pub y: Scalar,
    pub z: Scalar,
}

/// A vector of four components. A direction carries `w = 0`, so that a
/// transform moves it without translating it.
#[derive(Clone, Copy, Debug)]
pub struct Vector4 {
    pub x: Scalar,
    pub y: Scalar,
    pub z: Scalar,
    pub w: Scalar,
}

/// A quaternion with scalar part `s` and vector part `v`.
#[derive(Clone, Copy, Debug)]
pub struct Quaternion {
    pub s: Scalar,
    pub v: Vector3,
}

/// A 4x4 matrix held by its columns.
#[derive(Clone, Copy, Debug)]
pub struct Matrix4x4 {
    pub c0: Vector4,
    pub c1: Vector4,
    pub c2: Vector4,
    pub c3: Vector4,
}

impl Vector3 {
    /// The vector `(0, 0, 0)`.
    pub open spec fn spec_zero() -> Vector3 {
        Vector3 { x: Scalar::zero(), y: Scalar::zero(), z: Scalar::zero() }
    }

    /// The first axis of eye space, `(1, 0, 0)`: to the right.
    pub open spec fn spec_unit_x() -> Vector3 {
        Vector3 { x: Scalar::one(), y: Scalar::zero(), z: Scalar::zero() }
    }

    /// The second axis of eye space, `(0, 1, 0)`: up.
    pub open spec fn spec_unit_y() -> Vector3 {
        Vector3 { x: Scalar::zero(), y: Scalar::one(), z: Scalar::zero() }
    }

    /// The viewing direction of eye space, `(0, 0, -1)`.
    pub open spec fn spec_neg_unit_z() -> Vector3 {
        Vector3 { x: Scalar::zero(), y: Scalar::zero(), z: Scalar::one().neg() }
    }

    /// The vector with the sign of every component changed.
    pub open spec fn spec_neg(&self) -> Vector3 {
        Vector3 { x: self.x.neg(), y: self.y.neg(), z: self.z.neg() }
    }

    /// The same direction in homogeneous coordinates: `w` is `0`.
    pub open spec fn spec_to_homogeneous(&self) -> Vector4 {
        Vector4 { x: self.x, y: self.y, z: self.z, w: Scalar::zero() }
    }

    pub fn new(x: Scalar, y: Scalar, z: Scalar) -> (v: Vector3)
        ensures
            v.x == x,
            v.y == y,
            v.z == z,
    {
        Vector3 { x, y, z }
    }

    #[verifier::when_used_as_spec(spec_zero)]
    pub fn zero() -> (v: Vector3)
        ensures
            v == Vector3::spec_zero(),
    {
        Vector3 { x: Scalar::zero(), y: Scalar::zero(), z: Scalar::zero() }
    }

    #[verifier::when_used_as_spec(spec_unit_x)]
    pub fn unit_x() -> (v: Vector3)
        ensures
            v == Vector3::spec_unit_x(),
    {
        Vector3 { x: Scalar::one(), y: Scalar::zero(), z: Scalar::zero() }
    }

    #[verifier::when_used_as_spec(spec_unit_y)]
    pub fn unit_y() -> (v: Vector3)
        ensures
            v == Vector3::spec_unit_y(),
    {
        Vector3 { x: Scalar::zero(), y: Scalar::one(), z: Scalar::zero() }
    }

    #[verifier::when_used_as_spec(spec_neg_unit_z)]
    pub fn neg_unit_z() -> (v: Vector3)
        ensures
            v == Vector3::spec_neg_unit_z(),
    {
        Vector3 { x: Scalar::zero(), y: Scalar::zero(), z: Scalar::one().neg() }
    }

    #[verifier::when_used_as_spec(spec_neg)]
    pub fn neg(&self) -> (v: Vector3)
        ensures
            v == self.spec_neg(),
    {
        Vector3 { x: self.x.neg(), y: self.y.neg(), z: self.z.neg() }
    }

    #[verifier::when_used_as_spec(spec_to_homogeneous)]
    pub fn to_homogeneous(&self) -> (v: Vector4)
        ensures
            v == self.spec_to_homogeneous(),
    {
        Vector4 { x: self.x, y: self.y, z: self.z, w: Scalar::zero() }
    }
}

impl Vector4 {
    /// The first three components.
    pub open spec fn spec_contract(&self) -> Vector3 {
        Vector3 { x: self.x, y: self.y, z: self.z }
    }

    pub fn new(x: Scalar, y: Scalar, z: Scalar, w: Scalar) -> (v: Vector4)
        ensures
            v.x == x,
            v.y == y,
            v.z == z,
            v.w == w,
    {
        Vector4 { x, y, z, w }
    }

    #[verifier::when_used_as_spec(spec_contract)]
    pub fn contract(&self) -> (v: Vector3)
        ensures
            v == self.spec_contract(),
    {
        Vector3 { x: self.x, y: self.y, z: self.z }
    }
}

impl Quaternion {
    /// The quaternion `(0, v)`.
    pub open spec fn spec_pure(v: Vector3) -> Quaternion {
        Quaternion { s: Scalar::zero(), v }
    }

    pub fn from_parts(s: Scalar, v: Vector3) -> (q: Quaternion)
        ensures
            q.s == s,
            q.v == v,
    {
        Quaternion { s, v }
    }

    #[verifier::when_used_as_spec(spec_pure)]
    pub fn pure(v: Vector3) -> (q: Quaternion)
        ensures
            q == Quaternion::spec_pure(v),
    {
        Quaternion { s: Scalar::zero(), v }
    }
}

impl Matrix4x4 {
    /// The matrix that translates by `distance`: the identity, with
    /// `distance` in the first three rows of the last column.
    pub open spec fn spec_from_affine_translation(distance: &Vector3) -> Matrix4x4 {
        Matrix4x4 {
            c0: Vector4 { x: Scalar::one(), y: Scalar::zero(), z: Scalar::zero(), w: Scalar::zero() },
            c1: Vector4 { x: Scalar::zero(), y: Scalar::one(), z: Scalar::zero(), w: Scalar::zero() },
            c2: Vector4 { x: Scalar::zero(), y: Scalar::zero(), z: Scalar::one(), w: Scalar::zero() },
            c3: Vector4 { x: distance.x, y: distance.y, z: distance.z, w: Scalar::one() },
        }
    }

    pub fn from_columns(c0: Vector4, c1: Vector4, c2: Vector4, c3: Vector4) -> (m: Matrix4x4)
        ensures
            m.c0 == c0,
            m.c1 == c1,
            m.c2 == c2,
            m.c3 == c3,
    {
        Matrix4x4 { c0, c1, c2, c3 }
    }

    #[verifier::when_used_as_spec(spec_from_affine_translation)]
    pub fn from_affine_translation(distance: &Vector3) -> (m: Matrix4x4)
        ensures
            m == Matrix4x4::spec_from_affine_translation(distance),
    {
        let zero = Scalar::zero();
        let one = Scalar::one();
        Matrix4x4 {
            c0: Vector4 { x: one, y: zero, z: zero, w: zero },
            c1: Vector4 { x: zero, y: one, z: zero, w: zero },
            c2: Vector4 { x: zero, y: zero, z: one, w: zero },
            c3: Vector4 { x: distance.x, y: distance.y, z: distance.z, w: one },
        }
    }
}

/// Dropping the fourth coordinate of a direction gives the vector it was
/// made from.
pub proof fn lemma_contract_to_homogeneous(v: Vector3)
    ensures
        v.to_homogeneous().contract() == v,
        v.to_homogeneous().w == Scalar::zero(),
{
}

/// Changing the sign of a vector twice gives the vector back.
pub proof fn lemma_vector_neg_involutive(v: Vector3)
    ensures
        v.neg().neg() == v,
{
    crate::scalar::lemma_neg_involutive(v.x);
    crate::scalar::lemma_neg_involutive(v.y);
    crate::scalar::lemma_neg_involutive(v.z);
}

} // verus!
