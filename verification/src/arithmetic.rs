//! The arithmetic a light is computed with.
//!
//! Rotating and translating a frame takes floating-point products, inverses
//! and trigonometry. This crate does none of it: whoever owns a light hands
//! it an [`Arithmetic`], and the light decides what is asked of it and what
//! becomes of the answers.
//!
//! The methods carry no contract, so nothing is taken on trust: an answer
//! may be any value at all, and may differ from one call to the next. What
//! the crate promises is stated through the predicates below, each of which
//! says "this value is one that the arithmetic can answer to this question".

use vstd::prelude::*;
use crate::linear::{Matrix4x4, Quaternion, Vector3, Vector4};
use crate::scalar::{Radians, Scalar};

verus! {

/// Rounding operations on vectors, quaternions and matrices.
pub trait Arithmetic {
    /// The unit quaternion of the rotation by `angle` about the direction
    /// of `axis`; the axis is normalised first.
    fn axis_rotation(&self, axis: &Vector3, angle: Radians) -> Quaternion;

    /// The quaternion product `left * right`.
    fn quaternion_product(&self, left: &Quaternion, right: &Quaternion) -> Quaternion;

    /// The rotation matrix of a quaternion.
    fn rotation_matrix(&self, rotation: &Quaternion) -> Matrix4x4;

    /// The matrix product `left * right`.
    fn matrix_product(&self, left: &Matrix4x4, right: &Matrix4x4) -> Matrix4x4;

    /// The matrix applied to a vector, `matrix * vector`.
    fn transform(&self, matrix: &Matrix4x4, vector: &Vector4) -> Vector4;

    /// The inverse of a matrix, or `None` for a matrix that has none.
    fn inverse(&self, matrix: &Matrix4x4) -> Option<Matrix4x4>;

    /// The vector multiplied by a factor, `vector * factor`.
    fn scale(&self, vector: &Vector3, factor: Scalar) -> Vector3;

    /// The sum of two vectors, `left + right`.
    fn sum(&self, left: &Vector3, right: &Vector3) -> Vector3;
}

/// `rotation` is an answer of `arithmetic` for the rotation by `angle`
/// about `axis`.
pub open spec fn is_axis_rotation<K: Arithmetic>(
    arithmetic: &K,
    axis: Vector3,
    angle: Radians,
    rotation: Quaternion,
) -> bool {
    call_ensures(K::axis_rotation, (arithmetic, &axis, angle), rotation)
}

/// `product` is an answer of `arithmetic` for `left * right`.
pub open spec fn is_quaternion_product<K: Arithmetic>(
    arithmetic: &K,
    left: Quaternion,
    right: Quaternion,
    product: Quaternion,
) -> bool {
    call_ensures(K::quaternion_product, (arithmetic, &left, &right), product)
}

/// `matrix` is an answer of `arithmetic` for the rotation matrix of
/// `rotation`.
pub open spec fn is_rotation_matrix<K: Arithmetic>(
    arithmetic: &K,
    rotation: Quaternion,
    matrix: Matrix4x4,
) -> bool {
    call_ensures(K::rotation_matrix, (arithmetic, &rotation), matrix)
}

/// `product` is an answer of `arithmetic` for `left * right`.
pub open spec fn is_matrix_product<K: Arithmetic>(
    arithmetic: &K,
    left: Matrix4x4,
    right: Matrix4x4,
    product: Matrix4x4,
) -> bool {
    call_ensures(K::matrix_product, (arithmetic, &left, &right), product)
}

/// `image` is an answer of `arithmetic` for `matrix * vector`.
pub open spec fn is_transform<K: Arithmetic>(
    arithmetic: &K,
    matrix: Matrix4x4,
    vector: Vector4,
    image: Vector4,
) -> bool {
    call_ensures(K::transform, (arithmetic, &matrix, &vector), image)
}

/// `inverse` is an answer of `arithmetic` for the inverse of `matrix`;
/// `None` is its answer for a matrix it cannot invert.
pub open spec fn is_inverse<K: Arithmetic>(
    arithmetic: &K,
    matrix: Matrix4x4,
    inverse: Option<Matrix4x4>,
) -> bool {
    call_ensures(K::inverse, (arithmetic, &matrix), inverse)
}

/// `scaled` is an answer of `arithmetic` for `vector * factor`.
pub open spec fn is_scaled<K: Arithmetic>(
    arithmetic: &K,
    vector: Vector3,
    factor: Scalar,
    scaled: Vector3,
) -> bool {
    call_ensures(K::scale, (arithmetic, &vector, factor), scaled)
}

/// `sum` is an answer of `arithmetic` for `left + right`.
pub open spec fn is_sum<K: Arithmetic>(
    arithmetic: &K,
    left: Vector3,
    right: Vector3,
    sum: Vector3,
) -> bool {
    call_ensures(K::sum, (arithmetic, &left, &right), sum)
}

} // verus!
