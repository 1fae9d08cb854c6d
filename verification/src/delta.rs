//! One requested motion of a light.

use vstd::prelude::*;
use crate::linear::Vector3;
use crate::scalar::Radians;

verus! {

/// A change in attitude, in the light's own frame.
///
/// `delta_position` is read along the light's axes: `x` to the right, `y`
/// up, `z` backward, so that a negative `z` moves the light forward. The
/// angles turn the light about its own forward axis (`roll`), up axis
/// (`yaw`) and right axis (`pitch`).
#[derive(Clone, Copy, Debug)]
pub struct DeltaAttitude {
    /// The change in the position of the light.
    pub delta_position: Vector3,
    /// The change in the orientation of the light about its forward axis.
    pub roll: Radians,
    /// The change in the orientation of the light about its up axis.
    pub yaw: Radians,
    /// The change in the orientation of the light about its right axis.
    pub pitch: Radians,
}

impl DeltaAttitude {
    /// The change that moves nothing and turns nothing.
    pub open spec fn spec_zero() -> DeltaAttitude {
        DeltaAttitude {
            delta_position: Vector3::zero(),
            roll: Radians::zero(),
            yaw: Radians::zero(),
            pitch: Radians::zero(),
        }
    }

    /// Construct a new change in attitude.
    pub fn new(delta_position: Vector3, roll: Radians, yaw: Radians, pitch: Radians) -> (delta:
        DeltaAttitude)
        ensures
            delta.delta_position == delta_position,
            delta.roll == roll,
            delta.yaw == yaw,
            delta.pitch == pitch,
    {
        DeltaAttitude { delta_position, roll, yaw, pitch }
    }

    /// Construct zero change in attitude.
    #[verifier::when_used_as_spec(spec_zero)]
    pub fn zero() -> (delta: DeltaAttitude)
        ensures
            delta == DeltaAttitude::spec_zero(),
    {
        DeltaAttitude {
            delta_position: Vector3::zero(),
            roll: Radians::zero(),
            yaw: Radians::zero(),
            pitch: Radians::zero(),
        }
    }
}

} // verus!
