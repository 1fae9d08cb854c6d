//! What holds of an attitude from one change to the next.
//!
//! The contracts of [`LightAttitude`] say what one call does. The theorems
//! here say what follows for the attitudes that calls lead to: that every
//! cached quantity is derived from the position and the accumulated
//! rotation, that an arithmetic with one answer to each question leaves one
//! outcome to each update, and that a motion of nothing changes nothing
//! where the arithmetic treats zero as neutral.

use vstd::prelude::*;
use crate::arithmetic::{
    is_axis_rotation, is_inverse, is_matrix_product, is_quaternion_product, is_rotation_matrix,
    is_scaled, is_sum, is_transform, Arithmetic,
};
use crate::attitude::{
    derives_frame, displaces, places, reorients, rotation_fails, translation_fails, updates,
    Displacement, LightAttitude, LightAttitudeSpec, Reorientation,
};
use crate::delta::DeltaAttitude;
use crate::linear::{Matrix4x4, Quaternion, Vector3, Vector4};
use crate::scalar::{Radians, Scalar};

verus! {

/// Every cached quantity of `attitude` is derived from its position and its
/// accumulated rotation: the frame is read off the rotation matrix of the
/// accumulated rotation, the rotation matrix is the inverse of that matrix,
/// the translation matrix is the inverse of the translation by the
/// position, and the view matrix is the product of the two.
pub open spec fn is_derived<K: Arithmetic>(arithmetic: &K, attitude: LightAttitude) -> bool {
    &&& exists|frame: Matrix4x4|
        {
            &&& #[trigger] derives_frame(
                arithmetic,
                attitude.axis,
                frame,
                attitude.forward,
                attitude.right,
                attitude.up,
            )
            &&& is_inverse(arithmetic, frame, Some(attitude.rotation_matrix))
        }
    &&& is_inverse(
        arithmetic,
        Matrix4x4::from_affine_translation(&attitude.position),
        Some(attitude.translation_matrix),
    )
    &&& attitude.view_consistent(arithmetic)
}

/// The arithmetic has one answer to each question: two answers to the same
/// operation on the same operands are the same value.
pub open spec fn is_single_valued<K: Arithmetic>(arithmetic: &K) -> bool {
    &&& forall|axis: Vector3, angle: Radians, a: Quaternion, b: Quaternion|
        #![trigger is_axis_rotation(arithmetic, axis, angle, a), is_axis_rotation(arithmetic, axis, angle, b)]
        is_axis_rotation(arithmetic, axis, angle, a) && is_axis_rotation(arithmetic, axis, angle, b)
            ==> a == b
    &&& forall|left: Quaternion, right: Quaternion, a: Quaternion, b: Quaternion|
        #![trigger is_quaternion_product(arithmetic, left, right, a), is_quaternion_product(arithmetic, left, right, b)]
        is_quaternion_product(arithmetic, left, right, a) && is_quaternion_product(
            arithmetic,
            left,
            right,
            b,
        ) ==> a == b
    &&& forall|rotation: Quaternion, a: Matrix4x4, b: Matrix4x4|
        #![trigger is_rotation_matrix(arithmetic, rotation, a), is_rotation_matrix(arithmetic, rotation, b)]
        is_rotation_matrix(arithmetic, rotation, a) && is_rotation_matrix(arithmetic, rotation, b)
            ==> a == b
    &&& forall|left: Matrix4x4, right: Matrix4x4, a: Matrix4x4, b: Matrix4x4|
        #![trigger is_matrix_product(arithmetic, left, right, a), is_matrix_product(arithmetic, left, right, b)]
        is_matrix_product(arithmetic, left, right, a) && is_matrix_product(
            arithmetic,
            left,
            right,
            b,
        ) ==> a == b
    &&& forall|matrix: Matrix4x4, vector: Vector4, a: Vector4, b: Vector4|
        #![trigger is_transform(arithmetic, matrix, vector, a), is_transform(arithmetic, matrix, vector, b)]
        is_transform(arithmetic, matrix, vector, a) && is_transform(arithmetic, matrix, vector, b)
            ==> a == b
    &&& forall|matrix: Matrix4x4, a: Option<Matrix4x4>, b: Option<Matrix4x4>|
        #![trigger is_inverse(arithmetic, matrix, a), is_inverse(arithmetic, matrix, b)]
        is_inverse(arithmetic, matrix, a) && is_inverse(arithmetic, matrix, b) ==> a == b
    &&& forall|vector: Vector3, factor: Scalar, a: Vector3, b: Vector3|
        #![trigger is_scaled(arithmetic, vector, factor, a), is_scaled(arithmetic, vector, factor, b)]
        is_scaled(arithmetic, vector, factor, a) && is_scaled(arithmetic, vector, factor, b) ==> a
            == b
    &&& forall|left: Vector3, right: Vector3, a: Vector3, b: Vector3|
        #![trigger is_sum(arithmetic, left, right, a), is_sum(arithmetic, left, right, b)]
        is_sum(arithmetic, left, right, a) && is_sum(arithmetic, left, right, b) ==> a == b
}

/// Turning by an angle of zero about `axis` leaves `rotation` as it is:
/// whatever the arithmetic answers for the turn, its product with
/// `rotation` is `rotation`.
pub open spec fn zero_turn_keeps<K: Arithmetic>(
    arithmetic: &K,
    axis: Vector3,
    rotation: Quaternion,
) -> bool {
    forall|turn: Quaternion, product: Quaternion|
        #![trigger is_axis_rotation(arithmetic, axis, Radians::zero(), turn), is_quaternion_product(arithmetic, turn, rotation, product)]
        is_axis_rotation(arithmetic, axis, Radians::zero(), turn) && is_quaternion_product(
            arithmetic,
            turn,
            rotation,
            product,
        ) ==> product == rotation
}

/// A step of `factor` times `direction` leaves `position` where it is:
/// whatever the arithmetic answers for the step, its sum with `position` is
/// `position`.
pub open spec fn null_step_keeps<K: Arithmetic>(
    arithmetic: &K,
    direction: Vector3,
    factor: Scalar,
    position: Vector3,
) -> bool {
    forall|step: Vector3, sum: Vector3|
        #![trigger is_scaled(arithmetic, direction, factor, step), is_sum(arithmetic, position, step, sum)]
        is_scaled(arithmetic, direction, factor, step) && is_sum(arithmetic, position, step, sum)
            ==> sum == position
}

/// The arithmetic treats zero as neutral at `attitude`: a turn by zero
/// about each of its axes keeps its accumulated rotation, and a step of
/// zero along each of its axes keeps its position. The step along the
/// forward axis is by the negated zero, as an update takes it.
pub open spec fn zero_is_neutral_at<K: Arithmetic>(arithmetic: &K, attitude: LightAttitude) -> bool {
    &&& zero_turn_keeps(arithmetic, attitude.up.contract(), attitude.axis)
    &&& zero_turn_keeps(arithmetic, attitude.right.contract(), attitude.axis)
    &&& zero_turn_keeps(arithmetic, attitude.forward.contract(), attitude.axis)
    &&& null_step_keeps(
        arithmetic,
        attitude.forward.contract(),
        Scalar::zero().neg(),
        attitude.position,
    )
    &&& null_step_keeps(arithmetic, attitude.up.contract(), Scalar::zero(), attitude.position)
    &&& null_step_keeps(arithmetic, attitude.right.contract(), Scalar::zero(), attitude.position)
}

/// An attitude built from a specification has its view matrix committed:
/// it is the product of the rotation matrix and the translation matrix.
pub proof fn lemma_start_commits_view<K: Arithmetic>(
    arithmetic: &K,
    spec: LightAttitudeSpec,
    attitude: LightAttitude,
)
    requires
        attitude.starts_from(spec, arithmetic),
    ensures
        attitude.view_consistent(arithmetic),
{
}

/// Every update commits the view matrix: after it, the view matrix is the
/// product of the rotation matrix and the translation matrix that the
/// attitude then holds.
pub proof fn lemma_update_commits_view<K: Arithmetic>(
    arithmetic: &K,
    before: LightAttitude,
    delta: DeltaAttitude,
    after: LightAttitude,
)
    requires
        updates(arithmetic, before, delta, after),
    ensures
        after.view_consistent(arithmetic),
{
}

/// Every placement commits the view matrix, puts the light exactly at the
/// position asked for, and keeps its orientation, wherever the light was
/// before.
pub proof fn lemma_placement_overrides_position<K: Arithmetic>(
    arithmetic: &K,
    before: LightAttitude,
    position: Vector3,
    after: LightAttitude,
)
    requires
        places(arithmetic, before, position, after),
    ensures
        after.position == position,
        after.view_consistent(arithmetic),
        after.axis == before.axis,
        after.forward == before.forward,
        after.right == before.right,
        after.up == before.up,
        after.rotation_matrix == before.rotation_matrix,
{
}

/// Where a placement leads does not depend on where the light was: from
/// two attitudes with the same orientation, an arithmetic with one answer
/// to each question places the light at the same attitude.
pub proof fn lemma_placement_forgets_position<K: Arithmetic>(
    arithmetic: &K,
    first: LightAttitude,
    second: LightAttitude,
    position: Vector3,
    after_first: LightAttitude,
    after_second: LightAttitude,
)
    requires
        is_single_valued(arithmetic),
        first.axis == second.axis,
        first.forward == second.forward,
        first.right == second.right,
        first.up == second.up,
        first.rotation_matrix == second.rotation_matrix,
        places(arithmetic, first, position, after_first),
        places(arithmetic, second, position, after_second),
    ensures
        after_first == after_second,
{
    let translation = Matrix4x4::from_affine_translation(&position);
    assert(is_inverse(arithmetic, translation, Some(after_first.translation_matrix)));
    assert(is_inverse(arithmetic, translation, Some(after_second.translation_matrix)));
    assert(after_first.translation_matrix == after_second.translation_matrix);
    assert(after_first.view_consistent(arithmetic));
    assert(after_second.view_consistent(arithmetic));
}

/// Every update leaves an attitude whose frame and matrices are derived
/// from its position and its accumulated rotation: the frame is computed
/// anew from the rotation, never turned step by step.
pub proof fn lemma_update_derives<K: Arithmetic>(
    arithmetic: &K,
    before: LightAttitude,
    delta: DeltaAttitude,
    after: LightAttitude,
)
    requires
        updates(arithmetic, before, delta, after),
    ensures
        is_derived(arithmetic, after),
{
    let (turn, step) = choose|turn: Reorientation, step: Displacement|
        {
            &&& #[trigger] reorients(arithmetic, before, delta, turn)
            &&& turn.rotation is Some
            &&& #[trigger] displaces(arithmetic, before.reoriented(turn), delta, step)
            &&& step.translation is Some
            &&& after == before.reoriented(turn).displaced(step).viewed(after.view_matrix)
            &&& after.view_consistent(arithmetic)
        };
    assert(derives_frame(
        arithmetic,
        after.axis,
        turn.frame,
        after.forward,
        after.right,
        after.up,
    ));
    assert(turn.rotation == Some(after.rotation_matrix));
}

/// A placement keeps an attitude derived.
pub proof fn lemma_placement_keeps_derived<K: Arithmetic>(
    arithmetic: &K,
    before: LightAttitude,
    position: Vector3,
    after: LightAttitude,
)
    requires
        is_derived(arithmetic, before),
        places(arithmetic, before, position, after),
    ensures
        is_derived(arithmetic, after),
{
    let frame = choose|frame: Matrix4x4|
        {
            &&& #[trigger] derives_frame(
                arithmetic,
                before.axis,
                frame,
                before.forward,
                before.right,
                before.up,
            )
            &&& is_inverse(arithmetic, frame, Some(before.rotation_matrix))
        };
    assert(derives_frame(arithmetic, after.axis, frame, after.forward, after.right, after.up));
}

/// With an arithmetic that has one answer to each question, an update has
/// one outcome: the attitude before and the motion determine the attitude
/// after.
pub proof fn lemma_update_is_determined<K: Arithmetic>(
    arithmetic: &K,
    before: LightAttitude,
    delta: DeltaAttitude,
    first: LightAttitude,
    second: LightAttitude,
)
    requires
        is_single_valued(arithmetic),
        updates(arithmetic, before, delta, first),
        updates(arithmetic, before, delta, second),
    ensures
        first == second,
{
    let (t1, s1) = choose|turn: Reorientation, step: Displacement|
        {
            &&& #[trigger] reorients(arithmetic, before, delta, turn)
            &&& turn.rotation is Some
            &&& #[trigger] displaces(arithmetic, before.reoriented(turn), delta, step)
            &&& step.translation is Some
            &&& first == before.reoriented(turn).displaced(step).viewed(first.view_matrix)
            &&& first.view_consistent(arithmetic)
        };
    let (t2, s2) = choose|turn: Reorientation, step: Displacement|
        {
            &&& #[trigger] reorients(arithmetic, before, delta, turn)
            &&& turn.rotation is Some
            &&& #[trigger] displaces(arithmetic, before.reoriented(turn), delta, step)
            &&& step.translation is Some
            &&& second == before.reoriented(turn).displaced(step).viewed(second.view_matrix)
            &&& second.view_consistent(arithmetic)
        };
    lemma_turn_is_determined(arithmetic, before, delta, t1, t2);
    lemma_step_is_determined(arithmetic, before.reoriented(t1), delta, s1, s2);
}

/// With an arithmetic that has one answer to each question, a change of
/// orientation computes one sequence of values.
pub proof fn lemma_turn_is_determined<K: Arithmetic>(
    arithmetic: &K,
    before: LightAttitude,
    delta: DeltaAttitude,
    first: Reorientation,
    second: Reorientation,
)
    requires
        is_single_valued(arithmetic),
        reorients(arithmetic, before, delta, first),
        reorients(arithmetic, before, delta, second),
    ensures
        first == second,
{
    assert(first.yaw == second.yaw);
    assert(first.yawed == second.yawed);
    assert(first.pitch == second.pitch);
    assert(first.pitched == second.pitched);
    assert(first.roll == second.roll);
    assert(first.axis == second.axis);
    assert(first.frame == second.frame);
    assert(first.forward == second.forward);
    assert(first.right == second.right);
    assert(first.up == second.up);
    assert(first.rotation == second.rotation);
}

/// With an arithmetic that has one answer to each question, a move
/// computes one sequence of values.
pub proof fn lemma_step_is_determined<K: Arithmetic>(
    arithmetic: &K,
    before: LightAttitude,
    delta: DeltaAttitude,
    first: Displacement,
    second: Displacement,
)
    requires
        is_single_valued(arithmetic),
        displaces(arithmetic, before, delta, first),
        displaces(arithmetic, before, delta, second),
    ensures
        first == second,
{
    assert(first.forward_step == second.forward_step);
    assert(first.after_forward == second.after_forward);
    assert(first.up_step == second.up_step);
    assert(first.after_up == second.after_up);
    assert(first.right_step == second.right_step);
    assert(first.position == second.position);
    assert(first.translation == second.translation);
}

/// With an arithmetic that has one answer to each question, whether an
/// update succeeds is determined too: of its three outcomes, an updated
/// attitude, a rotation without an inverse and a translation without an
/// inverse, no two are possible for the same attitude and motion.
pub proof fn lemma_outcome_is_determined<K: Arithmetic>(
    arithmetic: &K,
    before: LightAttitude,
    delta: DeltaAttitude,
)
    requires
        is_single_valued(arithmetic),
    ensures
        !(rotation_fails(arithmetic, before, delta) && translation_fails(
            arithmetic,
            before,
            delta,
        )),
        forall|after: LightAttitude| #[trigger]
            updates(arithmetic, before, delta, after) ==> !rotation_fails(
                arithmetic,
                before,
                delta,
            ) && !translation_fails(arithmetic, before, delta),
{
    if rotation_fails(arithmetic, before, delta) {
        let failed = choose|turn: Reorientation|
            #[trigger] reorients(arithmetic, before, delta, turn) && turn.rotation is None;
        assert forall|turn: Reorientation| #[trigger]
            reorients(arithmetic, before, delta, turn) implies turn.rotation is None by {
            lemma_turn_is_determined(arithmetic, before, delta, failed, turn);
        }
    }
    if translation_fails(arithmetic, before, delta) {
        let (turned, failed) = choose|turn: Reorientation, step: Displacement|
            {
                &&& #[trigger] reorients(arithmetic, before, delta, turn)
                &&& turn.rotation is Some
                &&& #[trigger] displaces(arithmetic, before.reoriented(turn), delta, step)
                &&& step.translation is None
            };
        assert forall|turn: Reorientation, step: Displacement|
            #[trigger] reorients(arithmetic, before, delta, turn) && #[trigger] displaces(
                arithmetic,
                before.reoriented(turn),
                delta,
                step,
            ) implies step.translation is None by {
            lemma_turn_is_determined(arithmetic, before, delta, turned, turn);
            lemma_step_is_determined(arithmetic, before.reoriented(turn), delta, failed, step);
        }
    }
}

/// A motion of nothing changes nothing: the update by
/// [`DeltaAttitude::zero`] of a derived attitude ends in the same attitude,
/// bit for bit, when the arithmetic has one answer to each question and
/// treats zero as neutral at that attitude.
pub proof fn lemma_zero_delta_keeps_derived_attitude<K: Arithmetic>(
    arithmetic: &K,
    before: LightAttitude,
    after: LightAttitude,
)
    requires
        is_single_valued(arithmetic),
        is_derived(arithmetic, before),
        zero_is_neutral_at(arithmetic, before),
        updates(arithmetic, before, DeltaAttitude::zero(), after),
    ensures
        after == before,
{
    let delta = DeltaAttitude::zero();
    let (turn, step) = choose|turn: Reorientation, step: Displacement|
        {
            &&& #[trigger] reorients(arithmetic, before, delta, turn)
            &&& turn.rotation is Some
            &&& #[trigger] displaces(arithmetic, before.reoriented(turn), delta, step)
            &&& step.translation is Some
            &&& after == before.reoriented(turn).displaced(step).viewed(after.view_matrix)
            &&& after.view_consistent(arithmetic)
        };
    let frame = choose|frame: Matrix4x4|
        {
            &&& #[trigger] derives_frame(
                arithmetic,
                before.axis,
                frame,
                before.forward,
                before.right,
                before.up,
            )
            &&& is_inverse(arithmetic, frame, Some(before.rotation_matrix))
        };
    // The three turns keep the accumulated rotation.
    assert(turn.yawed == before.axis);
    assert(turn.pitched == before.axis);
    assert(turn.axis == before.axis);
    // The frame derived from it is the frame that is held.
    assert(turn.frame == frame);
    assert(turn.forward == before.forward);
    assert(turn.right == before.right);
    assert(turn.up == before.up);
    assert(turn.rotation == Some(before.rotation_matrix));
    let turned = before.reoriented(turn);
    assert(turned == before);
    // The three steps keep the position.
    assert(step.after_forward == before.position);
    assert(step.after_up == before.position);
    assert(step.position == before.position);
    assert(step.translation == Some(before.translation_matrix));
    assert(after.view_matrix == before.view_matrix);
}

} // verus!
