//! Illumination models: the parameters a shading stage reads from a light.
//!
//! A model is built from a specification of its own and carries the same
//! values, untouched. Ranges (a cutoff between 0 and 180 degrees, attenuation
//! coefficients that are not negative) are the caller's to keep.

use vstd::prelude::*;
use crate::linear::Vector3;
use crate::scalar::Scalar;

verus! {

/// A type with this trait can be used as the lighting model of a
/// [`Light`](crate::light::Light).
pub trait IlluminationModel: Sized {
    /// The parameters the model is built from.
    type Spec;

    /// Builds the model that a specification describes.
    fn from_spec(spec: &Self::Spec) -> Self;
}

/// The parameters of a point light.
#[derive(Clone, Copy, Debug)]
pub struct PointLightModelSpec {
    pub ambient: Vector3,
    pub diffuse: Vector3,
    pub specular: Vector3,
}

impl PointLightModelSpec {
    pub fn new(ambient: Vector3, diffuse: Vector3, specular: Vector3) -> (spec: PointLightModelSpec)
        ensures
            spec.ambient == ambient,
            spec.diffuse == diffuse,
            spec.specular == specular,
    {
        PointLightModelSpec { ambient, diffuse, specular }
    }
}

/// A light that shines equally in every direction.
#[derive(Clone, Copy, Debug)]
pub struct PointLightModel {
    pub ambient: Vector3,
    pub diffuse: Vector3,
    pub specular: Vector3,
}

impl PointLightModel {
    /// The model that carries the values of `spec`.
    pub open spec fn of(spec: PointLightModelSpec) -> PointLightModel {
        PointLightModel { ambient: spec.ambient, diffuse: spec.diffuse, specular: spec.specular }
    }
}

impl IlluminationModel for PointLightModel {
    type Spec = PointLightModelSpec;

    fn from_spec(spec: &PointLightModelSpec) -> (model: PointLightModel)
        ensures
            model == PointLightModel::of(*spec),
    {
        PointLightModel { ambient: spec.ambient, diffuse: spec.diffuse, specular: spec.specular }
    }
}

/// The parameters of a spotlight.
#[derive(Clone, Copy, Debug)]
pub struct SpotLightModelSpec {
    pub cutoff: Scalar,
    pub outer_cutoff: Scalar,
    pub ambient: Vector3,
    pub diffuse: Vector3,
    pub specular: Vector3,
    pub constant: Scalar,
    pub linear: Scalar,
    pub quadratic: Scalar,
}

impl SpotLightModelSpec {
    pub fn new(
        cutoff: Scalar,
        outer_cutoff: Scalar,
        ambient: Vector3,
        diffuse: Vector3,
        specular: Vector3,
        constant: Scalar,
        linear: Scalar,
        quadratic: Scalar,
    ) -> (spec: SpotLightModelSpec)
        ensures
            spec.cutoff == cutoff,
            spec.outer_cutoff == outer_cutoff,
            spec.ambient == ambient,
            spec.diffuse == diffuse,
            spec.specular == specular,
            spec.constant == constant,
            spec.linear == linear,
            spec.quadratic == quadratic,
    {
        SpotLightModelSpec {
            cutoff,
            outer_cutoff,
            ambient,
            diffuse,
            specular,
            constant,
            linear,
            quadratic,
        }
    }
}

/// A light that shines in a cone, with the cone's two cutoff angles and the
/// three coefficients of its attenuation.
#[derive(Clone, Copy, Debug)]
pub struct SpotLightModel {
    pub cutoff: Scalar,
    pub outer_cutoff: Scalar,
    pub ambient: Vector3,
    pub diffuse: Vector3,
    pub specular: Vector3,
    pub constant: Scalar,
    pub linear: Scalar,
    pub quadratic: Scalar,
}

impl SpotLightModel {
    /// The model that carries the values of `spec`.
    pub open spec fn of(spec: SpotLightModelSpec) -> SpotLightModel {
        SpotLightModel {
            cutoff: spec.cutoff,
            outer_cutoff: spec.outer_cutoff,
            ambient: spec.ambient,
            diffuse: spec.diffuse,
            specular: spec.specular,
            constant: spec.constant,
            linear: spec.linear,
            quadratic: spec.quadratic,
        }
    }
}

impl IlluminationModel for SpotLightModel {
    type Spec = SpotLightModelSpec;

    fn from_spec(spec: &SpotLightModelSpec) -> (model: SpotLightModel)
        ensures
            model == SpotLightModel::of(*spec),
    {
        SpotLightModel {
            cutoff: spec.cutoff,
            outer_cutoff: spec.outer_cutoff,
            ambient: spec.ambient,
            diffuse: spec.diffuse,
            specular: spec.specular,
            constant: spec.constant,
            linear: spec.linear,
            quadratic: spec.quadratic,
        }
    }
}

} // verus!
