//! Attitude tracking for light sources in a real-time renderer.
//!
//! A [`Light`] binds an illumination model to an attitude: a world position,
//! an orthonormal frame and the matrices a renderer derives from them. The
//! crate owns the bookkeeping: which quantity is recomputed from which, in
//! what order, and what is committed when a step fails. The floating-point
//! arithmetic itself is supplied by the host through [`Arithmetic`], and every
//! contract is stated for whatever that arithmetic answers.
//!
//! Scalars are IEEE 754 binary64 values held by their bit pattern.

pub mod arithmetic;
pub mod attitude;
pub mod coherence;
pub mod delta;
pub mod light;
pub mod linear;
pub mod model;
pub mod scalar;

pub use arithmetic::Arithmetic;
pub use attitude::{AttitudeError, LightAttitude, LightAttitudeSpec};
pub use delta::DeltaAttitude;
pub use light::{Light, PointLight, SpotLight};
pub use linear::{Matrix4x4, Quaternion, Vector3, Vector4};
pub use model::{
    IlluminationModel, PointLightModel, PointLightModelSpec, SpotLightModel, SpotLightModelSpec,
};
pub use scalar::{Radians, Scalar};
