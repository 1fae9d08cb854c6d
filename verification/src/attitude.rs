//! The attitude of a light: where it is and how it is turned.
//!
//! A [`LightAttitude`] holds a world position, a frame of three directions,
//! the quaternion that the frame is derived from, and three matrices cached
//! for the renderer. Two things change it: a motion in the light's own frame
//! ([`LightAttitude::update`]) and a placement in the world
//! ([`LightAttitude::update_position_world`]). Both either commit a whole new
//! attitude or leave the old one as it was.
//!
//! Every number is computed by an [`Arithmetic`]. The predicates
//! [`reorients`], [`displaces`] and [`updates`] say which questions are put
//! to it, with which operands and in which order; the contracts hold for
//! whatever it answers.

use vstd::prelude::*;
use crate::arithmetic::{
    is_axis_rotation, is_inverse, is_matrix_product, is_quaternion_product, is_rotation_matrix,
    is_scaled, is_sum, is_transform, Arithmetic,
};
use crate::delta::DeltaAttitude;
use crate::linear::{Matrix4x4, Quaternion, Vector3, Vector4};

verus! {

/// Why a change of attitude was not made.
#[derive(Clone, Copy, Debug, PartialEq, Eq, Structural)]
pub enum AttitudeError {
    /// The arithmetic found no inverse for the frame's rotation matrix.
    SingularRotation,
    /// The arithmetic found no inverse for the translation to the light's
    /// position.
    SingularTranslation,
}

/// The placement a light starts from: its position in world space, its
/// frame, and the axis that seeds its orientation.
///
/// `forward`, `right` and `up` are meant to be of unit length and mutually
/// orthogonal, the frame right-handed with `forward` as its negative
/// z-axis. Nothing checks it: a skewed frame is carried as it is until the
/// first update replaces it by the frame of the accumulated rotation.
#[derive(Clone, Copy, Debug)]
pub struct LightAttitudeSpec {
    /// The location of the light in world space.
    pub position: Vector3,
    /// The direction of the forward axis of the light, its negative z-axis.
    pub forward: Vector3,
    /// The direction of the right axis of the light, its positive x-axis.
    pub right: Vector3,
    /// The direction of the up axis of the light, its positive y-axis.
    pub up: Vector3,
    /// The axis of rotation of the light. It need not be one of the
    /// coordinate axes.
    pub axis: Vector3,
}

impl LightAttitudeSpec {
    /// Construct a new attitude specification.
    pub fn new(
        position: Vector3,
        forward: Vector3,
        right: Vector3,
        up: Vector3,
        axis: Vector3,
    ) -> (spec: LightAttitudeSpec)
        ensures
            spec.position == position,
            spec.forward == forward,
            spec.right == right,
            spec.up == up,
            spec.axis == axis,
    {
        LightAttitudeSpec { position, forward, right, up, axis }
    }
}

/// The position and orientation of a light in world space, in a
/// right-handed frame that looks along its negative z-axis.
#[derive(Clone, Copy, Debug)]
pub struct LightAttitude {
    /// The world space position of the light.
    pub position: Vector3,
    /// The direction the light looks in.
    pub forward: Vector4,
    /// The horizontal axis of the light's frame.
    pub right: Vector4,
    /// The vertical axis of the light's frame.
    pub up: Vector4,
    /// The accumulated rotation. Every update multiplies its three
    /// rotations onto it from the left.
    pub axis: Quaternion,
    /// The matrix that moves the light's position to the origin.
    pub translation_matrix: Matrix4x4,
    /// The matrix that turns world space into the light's frame.
    pub rotation_matrix: Matrix4x4,
    /// The rotation applied after the translation.
    pub view_matrix: Matrix4x4,
}

/// What one change of orientation computes, in the order of computing.
pub struct Reorientation {
    /// The rotation by the yaw angle about the up axis.
    pub yaw: Quaternion,
    /// `yaw` times the accumulated rotation.
    pub yawed: Quaternion,
    /// The rotation by the pitch angle about the right axis.
    pub pitch: Quaternion,
    /// `pitch` times `yawed`.
    pub pitched: Quaternion,
    /// The rotation by the roll angle about the forward axis.
    pub roll: Quaternion,
    /// `roll` times `pitched`: the new accumulated rotation.
    pub axis: Quaternion,
    /// The rotation matrix of `axis`, from the light's frame to the world.
    pub frame: Matrix4x4,
    /// The image of `(0, 0, -1, 0)` under `frame`.
    pub forward: Vector4,
    /// The image of `(1, 0, 0, 0)` under `frame`.
    pub right: Vector4,
    /// The image of `(0, 1, 0, 0)` under `frame`.
    pub up: Vector4,
    /// The inverse of `frame`, from the world to the light's frame.
    pub rotation: Option<Matrix4x4>,
}

/// What one move in the light's frame computes, in the order of computing.
pub struct Displacement {
    /// The forward axis times the negated `z` of the motion.
    pub forward_step: Vector3,
    /// The position plus `forward_step`.
    pub after_forward: Vector3,
    /// The up axis times the `y` of the motion.
    pub up_step: Vector3,
    /// `after_forward` plus `up_step`.
    pub after_up: Vector3,
    /// The right axis times the `x` of the motion.
    pub right_step: Vector3,
    /// `after_up` plus `right_step`: the new position.
    pub position: Vector3,
    /// The inverse of the translation by `position`.
    pub translation: Option<Matrix4x4>,
}

/// `step` is a change of orientation of `before` by the angles of `delta`.
///
/// The three rotations are taken about the axes of `before`, none about an
/// axis that an earlier rotation has turned, and are multiplied onto the
/// accumulated rotation from the left: yaw first, then pitch, then roll.
/// The frame is then read off the rotation matrix of the result.
pub open spec fn reorients<K: Arithmetic>(
    arithmetic: &K,
    before: LightAttitude,
    delta: DeltaAttitude,
    step: Reorientation,
) -> bool {
    &&& is_axis_rotation(arithmetic, before.up.contract(), delta.yaw, step.yaw)
    &&& is_quaternion_product(arithmetic, step.yaw, before.axis, step.yawed)
    &&& is_axis_rotation(arithmetic, before.right.contract(), delta.pitch, step.pitch)
    &&& is_quaternion_product(arithmetic, step.pitch, step.yawed, step.pitched)
    &&& is_axis_rotation(arithmetic, before.forward.contract(), delta.roll, step.roll)
    &&& is_quaternion_product(arithmetic, step.roll, step.pitched, step.axis)
    &&& derives_frame(arithmetic, step.axis, step.frame, step.forward, step.right, step.up)
    &&& is_inverse(arithmetic, step.frame, step.rotation)
}

/// `forward`, `right` and `up` are the images of the eye-space axes
/// `(0, 0, -1)`, `(1, 0, 0)` and `(0, 1, 0)` under `frame`, and `frame` is
/// the rotation matrix of `axis`.
pub open spec fn derives_frame<K: Arithmetic>(
    arithmetic: &K,
    axis: Quaternion,
    frame: Matrix4x4,
    forward: Vector4,
    right: Vector4,
    up: Vector4,
) -> bool {
    &&& is_rotation_matrix(arithmetic, axis, frame)
    &&& is_transform(arithmetic, frame, Vector3::neg_unit_z().to_homogeneous(), forward)
    &&& is_transform(arithmetic, frame, Vector3::unit_x().to_homogeneous(), right)
    &&& is_transform(arithmetic, frame, Vector3::unit_y().to_homogeneous(), up)
}

/// `step` is a move of `before` by the offset of `delta`, along the axes
/// that `before` holds: forward by the negated `z`, then up by `y`, then
/// right by `x`.
pub open spec fn displaces<K: Arithmetic>(
    arithmetic: &K,
    before: LightAttitude,
    delta: DeltaAttitude,
    step: Displacement,
) -> bool {
    &&& is_scaled(
        arithmetic,
        before.forward.contract(),
        delta.delta_position.z.neg(),
        step.forward_step,
    )
    &&& is_sum(arithmetic, before.position, step.forward_step, step.after_forward)
    &&& is_scaled(arithmetic, before.up.contract(), delta.delta_position.y, step.up_step)
    &&& is_sum(arithmetic, step.after_forward, step.up_step, step.after_up)
    &&& is_scaled(arithmetic, before.right.contract(), delta.delta_position.x, step.right_step)
    &&& is_sum(arithmetic, step.after_up, step.right_step, step.position)
    &&& is_inverse(arithmetic, Matrix4x4::from_affine_translation(&step.position), step.translation)
}

/// `after` is `before` moved by `delta`: turned, then displaced along the
/// axes it has after the turn, with the view matrix computed from the two
/// new matrices.
pub open spec fn updates<K: Arithmetic>(
    arithmetic: &K,
    before: LightAttitude,
    delta: DeltaAttitude,
    after: LightAttitude,
) -> bool {
    exists|turn: Reorientation, step: Displacement|
        {
            &&& #[trigger] reorients(arithmetic, before, delta, turn)
            &&& turn.rotation is Some
            &&& #[trigger] displaces(arithmetic, before.reoriented(turn), delta, step)
            &&& step.translation is Some
            &&& after == before.reoriented(turn).displaced(step).viewed(after.view_matrix)
            &&& after.view_consistent(arithmetic)
        }
}

/// The turn that `delta` asks of `before` can end without an inverse for
/// the frame.
pub open spec fn rotation_fails<K: Arithmetic>(
    arithmetic: &K,
    before: LightAttitude,
    delta: DeltaAttitude,
) -> bool {
    exists|turn: Reorientation|
        #[trigger] reorients(arithmetic, before, delta, turn) && turn.rotation is None
}

/// The move that `delta` asks of `before` can end, after the turn, without
/// an inverse for the translation.
pub open spec fn translation_fails<K: Arithmetic>(
    arithmetic: &K,
    before: LightAttitude,
    delta: DeltaAttitude,
) -> bool {
    exists|turn: Reorientation, step: Displacement|
        {
            &&& #[trigger] reorients(arithmetic, before, delta, turn)
            &&& turn.rotation is Some
            &&& #[trigger] displaces(arithmetic, before.reoriented(turn), delta, step)
            &&& step.translation is None
        }
}

/// `after` is `before` put at `position`: the translation matrix is the
/// inverse of the translation by `position`, the view matrix is computed
/// from it and from the rotation matrix that `before` holds, and nothing
/// else has changed.
pub open spec fn places<K: Arithmetic>(
    arithmetic: &K,
    before: LightAttitude,
    position: Vector3,
    after: LightAttitude,
) -> bool {
    &&& after.position == position
    &&& is_inverse(
        arithmetic,
        Matrix4x4::from_affine_translation(&position),
        Some(after.translation_matrix),
    )
    &&& after == before.placed(position, after.translation_matrix).viewed(after.view_matrix)
    &&& after.view_consistent(arithmetic)
}

impl LightAttitude {
    /// This attitude with the orientation that `turn` computed.
    pub open spec fn reoriented(self, turn: Reorientation) -> LightAttitude {
        LightAttitude {
            forward: turn.forward,
            right: turn.right,
            up: turn.up,
            axis: turn.axis,
            rotation_matrix: turn.rotation.unwrap(),
            ..self
        }
    }

    /// This attitude at the position that `step` computed.
    pub open spec fn displaced(self, step: Displacement) -> LightAttitude {
        LightAttitude {
            position: step.position,
            translation_matrix: step.translation.unwrap(),
            ..self
        }
    }

    /// This attitude at `position`, with `translation` as its translation
    /// matrix.
    pub open spec fn placed(self, position: Vector3, translation: Matrix4x4) -> LightAttitude {
        LightAttitude { position, translation_matrix: translation, ..self }
    }

    /// This attitude with `view` as its view matrix.
    pub open spec fn viewed(self, view: Matrix4x4) -> LightAttitude {
        LightAttitude { view_matrix: view, ..self }
    }

    /// The view matrix is the product of the rotation matrix and the
    /// translation matrix that this attitude holds.
    pub open spec fn view_consistent<K: Arithmetic>(self, arithmetic: &K) -> bool {
        is_matrix_product(
            arithmetic,
            self.rotation_matrix,
            self.translation_matrix,
            self.view_matrix,
        )
    }

    /// This is an attitude that `spec` describes: position and frame are
    /// those of `spec`, the accumulated rotation is `(0, axis)`, the
    /// translation is the one by the negated position, the rotation matrix
    /// is that of the accumulated rotation, and the view matrix is their
    /// product.
    pub open spec fn starts_from<K: Arithmetic>(
        self,
        spec: LightAttitudeSpec,
        arithmetic: &K,
    ) -> bool {
        &&& self.position == spec.position
        &&& self.forward == spec.forward.to_homogeneous()
        &&& self.right == spec.right.to_homogeneous()
        &&& self.up == spec.up.to_homogeneous()
        &&& self.axis == Quaternion::pure(spec.axis)
        &&& self.translation_matrix == Matrix4x4::from_affine_translation(&spec.position.neg())
        &&& is_rotation_matrix(arithmetic, self.axis, self.rotation_matrix)
        &&& self.view_consistent(arithmetic)
    }

    /// Construct the attitude of a light from its specification.
    pub fn from_spec<K: Arithmetic>(spec: &LightAttitudeSpec, arithmetic: &K) -> (attitude:
        LightAttitude)
        ensures
            attitude.starts_from(*spec, arithmetic),
    {
        let axis = Quaternion::pure(spec.axis);
        let translation_matrix = Matrix4x4::from_affine_translation(&spec.position.neg());
        let rotation_matrix = arithmetic.rotation_matrix(&axis);
        let view_matrix = arithmetic.matrix_product(&rotation_matrix, &translation_matrix);

        LightAttitude {
            position: spec.position,
            forward: spec.forward.to_homogeneous(),
            right: spec.right.to_homogeneous(),
            up: spec.up.to_homogeneous(),
            axis,
            translation_matrix,
            rotation_matrix,
            view_matrix,
        }
    }

    /// The light's up direction in its own frame, `(0, 1, 0)`.
    pub fn up_axis_eye(&self) -> (axis: Vector3)
        ensures
            axis == Vector3::unit_y(),
    {
        Vector3::unit_y()
    }

    /// The light's right axis in its own frame, `(1, 0, 0)`.
    pub fn right_axis_eye(&self) -> (axis: Vector3)
        ensures
            axis == Vector3::unit_x(),
    {
        Vector3::unit_x()
    }

    /// The light's forward axis in its own frame, `(0, 0, -1)`.
    pub fn forward_axis_eye(&self) -> (axis: Vector3)
        ensures
            axis == Vector3::neg_unit_z(),
    {
        Vector3::neg_unit_z()
    }

    /// Moves the light along its own axes by the offset of `delta` and
    /// recomputes the translation matrix. The view matrix is left for the
    /// caller to recompute.
    fn update_position_eye<K: Arithmetic>(
        &mut self,
        delta_attitude: &DeltaAttitude,
        arithmetic: &K,
    ) -> (result: Result<(), AttitudeError>)
        ensures
            result is Ok ==> exists|step: Displacement|
                {
                    &&& #[trigger] displaces(arithmetic, *old(self), *delta_attitude, step)
                    &&& step.translation is Some
                    &&& *final(self) == old(self).displaced(step)
                },
            result is Err ==> {
                &&& result == Err::<(), AttitudeError>(AttitudeError::SingularTranslation)
                &&& *final(self) == *old(self)
                &&& exists|step: Displacement|
                    #[trigger] displaces(arithmetic, *old(self), *delta_attitude, step)
                        && step.translation is None
            },
    {
        let forward_step = arithmetic.scale(
            &self.forward.contract(),
            delta_attitude.delta_position.z.neg(),
        );
        let after_forward = arithmetic.sum(&self.position, &forward_step);
        let up_step = arithmetic.scale(&self.up.contract(), delta_attitude.delta_position.y);
        let after_up = arithmetic.sum(&after_forward, &up_step);
        let right_step = arithmetic.scale(&self.right.contract(), delta_attitude.delta_position.x);
        let position = arithmetic.sum(&after_up, &right_step);

        let translation_inv = Matrix4x4::from_affine_translation(&position);
        let translation = arithmetic.inverse(&translation_inv);
        proof {
            let step = Displacement {
                forward_step,
                after_forward,
                up_step,
                after_up,
                right_step,
                position,
                translation,
            };
            assert(displaces(arithmetic, *self, *delta_attitude, step));
        }
        match translation {
            Some(translation_matrix) => {
                self.position = position;
                self.translation_matrix = translation_matrix;
                Ok(())
            },
            None => Err(AttitudeError::SingularTranslation),
        }
    }

    /// Turns the light by the angles of `delta` and rederives its frame and
    /// its rotation matrix from the accumulated rotation. The view matrix
    /// is left for the caller to recompute.
    fn update_orientation_eye<K: Arithmetic>(
        &mut self,
        delta_attitude: &DeltaAttitude,
        arithmetic: &K,
    ) -> (result: Result<(), AttitudeError>)
        ensures
            result is Ok ==> exists|turn: Reorientation|
                {
                    &&& #[trigger] reorients(arithmetic, *old(self), *delta_attitude, turn)
                    &&& turn.rotation is Some
                    &&& *final(self) == old(self).reoriented(turn)
                },
            result is Err ==> {
                &&& result == Err::<(), AttitudeError>(AttitudeError::SingularRotation)
                &&& *final(self) == *old(self)
                &&& rotation_fails(arithmetic, *old(self), *delta_attitude)
            },
    {
        let axis_yaw = self.up.contract();
        let q_yaw = arithmetic.axis_rotation(&axis_yaw, delta_attitude.yaw);
        let yawed = arithmetic.quaternion_product(&q_yaw, &self.axis);

        let axis_pitch = self.right.contract();
        let q_pitch = arithmetic.axis_rotation(&axis_pitch, delta_attitude.pitch);
        let pitched = arithmetic.quaternion_product(&q_pitch, &yawed);

        let axis_roll = self.forward.contract();
        let q_roll = arithmetic.axis_rotation(&axis_roll, delta_attitude.roll);
        let axis = arithmetic.quaternion_product(&q_roll, &pitched);

        let rotation_matrix_inv = arithmetic.rotation_matrix(&axis);
        let forward = arithmetic.transform(
            &rotation_matrix_inv,
            &Vector3::neg_unit_z().to_homogeneous(),
        );
        let right = arithmetic.transform(&rotation_matrix_inv, &Vector3::unit_x().to_homogeneous());
        let up = arithmetic.transform(&rotation_matrix_inv, &Vector3::unit_y().to_homogeneous());
        let rotation = arithmetic.inverse(&rotation_matrix_inv);
        proof {
            let turn = Reorientation {
                yaw: q_yaw,
                yawed,
                pitch: q_pitch,
                pitched,
                roll: q_roll,
                axis,
                frame: rotation_matrix_inv,
                forward,
                right,
                up,
                rotation,
            };
            assert(reorients(arithmetic, *self, *delta_attitude, turn));
        }
        match rotation {
            Some(rotation_matrix) => {
                self.axis = axis;
                self.forward = forward;
                self.right = right;
                self.up = up;
                self.rotation_matrix = rotation_matrix;
                Ok(())
            },
            None => Err(AttitudeError::SingularRotation),
        }
    }

    /// Puts the light at `new_position` in world space, whatever motions
    /// came before, and recomputes the translation matrix and the view
    /// matrix. The orientation is not touched.
    ///
    /// Fails, and changes nothing, when the arithmetic finds no inverse for
    /// the translation by `new_position`.
    pub fn update_position_world<K: Arithmetic>(
        &mut self,
        new_position: &Vector3,
        arithmetic: &K,
    ) -> (result: Result<(), AttitudeError>)
        ensures
            result is Ok ==> places(arithmetic, *old(self), *new_position, *final(self)),
            result is Ok ==> final(self).position == *new_position,
            result is Ok ==> final(self).view_consistent(arithmetic),
            result is Err ==> {
                &&& result == Err::<(), AttitudeError>(AttitudeError::SingularTranslation)
                &&& *final(self) == *old(self)
                &&& is_inverse(
                    arithmetic,
                    Matrix4x4::from_affine_translation(new_position),
                    None,
                )
            },
    {
        let translation_inv = Matrix4x4::from_affine_translation(new_position);
        match arithmetic.inverse(&translation_inv) {
            Some(translation_matrix) => {
                let view_matrix = arithmetic.matrix_product(
                    &self.rotation_matrix,
                    &translation_matrix,
                );
                self.position = *new_position;
                self.translation_matrix = translation_matrix;
                self.view_matrix = view_matrix;
                Ok(())
            },
            None => Err(AttitudeError::SingularTranslation),
        }
    }

    /// Moves the light by `delta`, in its own frame: turns it first, then
    /// displaces it along the axes it has after the turn, then recomputes
    /// the view matrix.
    ///
    /// Fails, and changes nothing, when the arithmetic finds no inverse for
    /// one of the two matrices it is asked to invert.
    pub fn update<K: Arithmetic>(&mut self, delta_attitude: &DeltaAttitude, arithmetic: &K) -> (result:
        Result<(), AttitudeError>)
        ensures
            result is Ok ==> updates(arithmetic, *old(self), *delta_attitude, *final(self)),
            result is Ok ==> final(self).view_consistent(arithmetic),
            result is Err ==> *final(self) == *old(self),
            result == Err::<(), AttitudeError>(AttitudeError::SingularRotation) ==> rotation_fails(
                arithmetic,
                *old(self),
                *delta_attitude,
            ),
            result == Err::<(), AttitudeError>(AttitudeError::SingularTranslation)
                ==> translation_fails(arithmetic, *old(self), *delta_attitude),
    {
        let before = *self;
        if let Err(error) = self.update_orientation_eye(delta_attitude, arithmetic) {
            return Err(error);
        }
        let ghost turned = *self;
        let ghost turn = choose|turn: Reorientation|
            {
                &&& #[trigger] reorients(arithmetic, before, *delta_attitude, turn)
                &&& turn.rotation is Some
                &&& turned == before.reoriented(turn)
            };
        if let Err(error) = self.update_position_eye(delta_attitude, arithmetic) {
            proof {
                let step = choose|step: Displacement|
                    #[trigger] displaces(arithmetic, turned, *delta_attitude, step)
                        && step.translation is None;
                assert(displaces(arithmetic, before.reoriented(turn), *delta_attitude, step));
            }
            *self = before;
            return Err(error);
        }
        let ghost step = choose|step: Displacement|
            {
                &&& #[trigger] displaces(arithmetic, turned, *delta_attitude, step)
                &&& step.translation is Some
                &&& *self == turned.displaced(step)
            };
        self.view_matrix = arithmetic.matrix_product(&self.rotation_matrix, &self.translation_matrix);
        proof {
            assert(displaces(arithmetic, before.reoriented(turn), *delta_attitude, step));
            assert(*self == before.reoriented(turn).displaced(step).viewed(self.view_matrix));
        }
        Ok(())
    }
}

} // verus!
