//! A light: an illumination model at an attitude.

use vstd::prelude::*;
use crate::arithmetic::{is_inverse, Arithmetic};
use crate::attitude::{
    places, rotation_fails, translation_fails, updates, AttitudeError, LightAttitude,
    LightAttitudeSpec,
};
use crate::delta::DeltaAttitude;
use crate::linear::{Matrix4x4, Vector3};
use crate::model::{IlluminationModel, PointLightModel, SpotLightModel};

verus! {

/// A point light computed with the arithmetic `K`.
pub type PointLight<K> = Light<PointLightModel, K>;

/// A spotlight computed with the arithmetic `K`.
pub type SpotLight<K> = Light<SpotLightModel, K>;

/// A light source in a scene: what it shines with, where it is and how it
/// is turned, and the arithmetic that its matrices are computed with.
///
/// Whatever has been done to a light, its view matrix is the product of its
/// rotation matrix and its translation matrix, as its arithmetic computes
/// it.
pub struct Light<M: IlluminationModel, K: Arithmetic> {
    model: M,
    attitude: LightAttitude,
    arithmetic: K,
}

impl<M: IlluminationModel, K: Arithmetic> Light<M, K> {
    #[verifier::type_invariant]
    spec fn view_is_committed(&self) -> bool {
        self.attitude.view_consistent(&self.arithmetic)
    }

    /// The attitude of the light.
    pub closed spec fn attitude(&self) -> LightAttitude {
        self.attitude
    }

    /// The arithmetic of the light.
    pub closed spec fn arithmetic(&self) -> K {
        self.arithmetic
    }

    /// The illumination model of the light.
    pub closed spec fn spec_model(&self) -> M {
        self.model
    }

    /// Builds a light from the parameters of its model and the placement it
    /// starts from, to be computed with `arithmetic` from now on.
    pub fn new(model_spec: &M::Spec, attitude_spec: &LightAttitudeSpec, arithmetic: K) -> (light:
        Self)
        ensures
            call_ensures(M::from_spec, (model_spec,), light.spec_model()),
            light.arithmetic() == arithmetic,
            light.attitude().starts_from(*attitude_spec, &arithmetic),
            light.attitude().view_consistent(&light.arithmetic()),
    {
        let attitude = LightAttitude::from_spec(attitude_spec, &arithmetic);
        Light { model: M::from_spec(model_spec), attitude, arithmetic }
    }

    /// Update the light's attitude (i.e. position and orientation) in the
    /// light's local coordinate frame.
    ///
    /// Fails, and changes nothing, when the arithmetic finds no inverse for
    /// the rotation matrix of the new frame or for the translation to the
    /// new position.
    pub fn update_attitude_eye(&mut self, delta_attitude: &DeltaAttitude) -> (result: Result<
        (),
        AttitudeError,
    >)
        ensures
            final(self).arithmetic() == old(self).arithmetic(),
            final(self).spec_model() == old(self).spec_model(),
            final(self).attitude().view_consistent(&final(self).arithmetic()),
            result is Ok ==> updates(
                &old(self).arithmetic(),
                old(self).attitude(),
                *delta_attitude,
                final(self).attitude(),
            ),
            result is Err ==> final(self).attitude() == old(self).attitude(),
            result == Err::<(), AttitudeError>(AttitudeError::SingularRotation) ==> rotation_fails(
                &old(self).arithmetic(),
                old(self).attitude(),
                *delta_attitude,
            ),
            result == Err::<(), AttitudeError>(AttitudeError::SingularTranslation)
                ==> translation_fails(
                &old(self).arithmetic(),
                old(self).attitude(),
                *delta_attitude,
            ),
    {
        proof {
            use_type_invariant(&*self);
        }
        let mut attitude = self.attitude;
        let result = attitude.update(delta_attitude, &self.arithmetic);
        self.attitude = attitude;
        result
    }

    /// Puts the light at `new_position` in world space and recomputes its
    /// translation and view matrices; the orientation stays.
    ///
    /// Fails, and changes nothing, when the arithmetic finds no inverse for
    /// the translation by `new_position`.
    pub fn update_position_world(&mut self, new_position: &Vector3) -> (result: Result<
        (),
        AttitudeError,
    >)
        ensures
            final(self).arithmetic() == old(self).arithmetic(),
            final(self).spec_model() == old(self).spec_model(),
            final(self).attitude().view_consistent(&final(self).arithmetic()),
            result is Ok ==> places(
                &old(self).arithmetic(),
                old(self).attitude(),
                *new_position,
                final(self).attitude(),
            ),
            result is Ok ==> final(self).attitude().position == *new_position,
            result is Err ==> {
                &&& result == Err::<(), AttitudeError>(AttitudeError::SingularTranslation)
                &&& final(self).attitude() == old(self).attitude()
                &&& is_inverse(
                    &old(self).arithmetic(),
                    Matrix4x4::from_affine_translation(new_position),
                    None,
                )
            },
    {
        proof {
            use_type_invariant(&*self);
        }
        let mut attitude = self.attitude;
        let result = attitude.update_position_world(new_position, &self.arithmetic);
        self.attitude = attitude;
        result
    }

    /// The illumination model of the light.
    pub fn model(&self) -> (model: &M)
        ensures
            *model == self.spec_model(),
    {
        &self.model
    }

    /// Get the light's position in world space.
    pub fn position(&self) -> (position: Vector3)
        ensures
            position == self.attitude().position,
    {
        self.attitude.position
    }

    /// Get the light's up direction in world space.
    pub fn up_axis(&self) -> (axis: Vector3)
        ensures
            axis == self.attitude().up.contract(),
    {
        self.attitude.up.contract()
    }

    /// Get the light's right axis in world space.
    pub fn right_axis(&self) -> (axis: Vector3)
        ensures
            axis == self.attitude().right.contract(),
    {
        self.attitude.right.contract()
    }

    /// Get the light's forward axis in world space.
    pub fn forward_axis(&self) -> (axis: Vector3)
        ensures
            axis == self.attitude().forward.contract(),
    {
        self.attitude.forward.contract()
    }

    /// Get the light's vertical y-axis in its own frame, `(0, 1, 0)`.
    pub fn up_axis_eye(&self) -> (axis: Vector3)
        ensures
            axis == Vector3::unit_y(),
    {
        self.attitude.up_axis_eye()
    }

    /// Get the light's horizontal x-axis in its own frame, `(1, 0, 0)`.
    pub fn right_axis_eye(&self) -> (axis: Vector3)
        ensures
            axis == Vector3::unit_x(),
    {
        self.attitude.right_axis_eye()
    }

    /// Get the light's forward axis in its own frame, `(0, 0, -1)`.
    pub fn forward_axis_eye(&self) -> (axis: Vector3)
        ensures
            axis == Vector3::neg_unit_z(),
    {
        self.attitude.forward_axis_eye()
    }

    /// Get the vector part of the light's accumulated rotation. It is
    /// handed out as it is, of whatever length.
    pub fn rotation_axis(&self) -> (axis: Vector3)
        ensures
            axis == self.attitude().axis.v,
    {
        self.attitude.axis.v
    }

    /// The matrix from world space to the light's view space: the product
    /// of the light's rotation matrix and its translation matrix.
    pub fn view_matrix(&self) -> (view: &Matrix4x4)
        ensures
            *view == self.attitude().view_matrix,
            self.attitude().view_consistent(&self.arithmetic()),
    {
        proof {
            use_type_invariant(self);
        }
        &self.attitude.view_matrix
    }

    /// The matrix from the light's model space to world space: the
    /// translation by its position. The orientation has no part in it.
    pub fn model_matrix(&self) -> (matrix: Matrix4x4)
        ensures
            matrix == Matrix4x4::from_affine_translation(&self.attitude().position),
    {
        Matrix4x4::from_affine_translation(&self.position())
    }
}

} // verus!
