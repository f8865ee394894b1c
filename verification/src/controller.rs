//! The input-to-motion policy of the camera controller.
//!
//! Each frame the embedding polls the six tracked motion keys, records them
//! here, and asks for a [`MotionPlan`]: the set of eye displacements to
//! apply. The numeric vector work — normalizing the eye-to-target offset,
//! stepping along it, rotating around the target — is the embedding's;
//! which of those steps happen, and under which guards, is decided and
//! proved here.

use vstd::prelude::*;

verus! {

use crate::scalar::Scalar;
use crate::scalar::scalar_gt;
use crate::scalar::scalar_is_positive_finite;

/// Bit pattern of the default motion step, 0.1.
pub const DEFAULT_SPEED_BITS: u32 = 0x3DCC_CCCD;

/// Pressed state of the six tracked motion keys.
#[derive(Clone, Copy, Debug, PartialEq, Eq, Structural)]
pub struct KeyStates {
    pub forward: bool,
    pub backward: bool,
    pub right: bool,
    pub left: bool,
    pub up: bool,
    pub down: bool,
}

impl KeyStates {
    /// Some tracked key is pressed.
    pub open spec fn any(self) -> bool {
        self.forward || self.backward || self.right || self.left || self.up || self.down
    }
}

/// The eye displacements the controller decides to apply this frame.
///
/// `forward`/`backward` step the eye along the view direction; the other
/// four rotate the eye around the target, keeping the pre-move distance to
/// the target.
#[derive(Clone, Copy, Debug, PartialEq, Eq, Structural)]
pub struct MotionPlan {
    pub forward: bool,
    pub backward: bool,
    pub strafe_right: bool,
    pub strafe_left: bool,
    pub rise: bool,
    pub descend: bool,
}

impl MotionPlan {
    /// No motion at all: the camera stays where it is and no derived
    /// matrix needs recomputing.
    pub open spec fn is_idle(self) -> bool {
        !self.forward && !self.backward && !self.strafe_right && !self.strafe_left && !self.rise
            && !self.descend
    }
}

/// Tracks the pressed motion keys and turns them into eye displacements of
/// a fixed step size.
#[derive(Clone, Copy, Debug, PartialEq, Eq, Structural)]
pub struct CameraController {
    pub speed: Scalar,
    pub forward_pressed: bool,
    pub backward_pressed: bool,
    pub right_pressed: bool,
    pub left_pressed: bool,
    pub up_pressed: bool,
    pub down_pressed: bool,
}

impl Default for CameraController {
    /// A controller with the default step size and no key pressed.
    fn default() -> (c: Self)
        ensures
            c.speed == (Scalar { bits: DEFAULT_SPEED_BITS }),
            !c.any_pressed(),
    {
        CameraController::new(Scalar { bits: DEFAULT_SPEED_BITS })
    }
}

impl CameraController {
    /// A controller with the given step size and no key pressed.
    pub fn new(speed: Scalar) -> (c: Self)
        ensures
            c.speed == speed,
            !c.any_pressed(),
    {
        CameraController {
            speed,
            forward_pressed: false,
            backward_pressed: false,
            right_pressed: false,
            left_pressed: false,
            up_pressed: false,
            down_pressed: false,
        }
    }

    /// Some tracked key is recorded as pressed.
    pub open spec fn any_pressed(self) -> bool {
        self.forward_pressed || self.backward_pressed || self.right_pressed || self.left_pressed
            || self.up_pressed || self.down_pressed
    }

    /// Records the current key states and reports whether any tracked key
    /// is pressed, so the caller can skip motion and matrix recomputation
    /// entirely on an idle frame.
    pub fn process_events(&mut self, keys: &KeyStates) -> (r: bool)
        ensures
            final(self).speed == old(self).speed,
            final(self).forward_pressed == keys.forward,
            final(self).backward_pressed == keys.backward,
            final(self).right_pressed == keys.right,
            final(self).left_pressed == keys.left,
            final(self).up_pressed == keys.up,
            final(self).down_pressed == keys.down,
            r == keys.any(),
            r == final(self).any_pressed(),
    {
        self.forward_pressed = keys.forward;
        self.backward_pressed = keys.backward;
        self.right_pressed = keys.right;
        self.left_pressed = keys.left;
        self.up_pressed = keys.up;
        self.down_pressed = keys.down;
        self.forward_pressed || self.backward_pressed || self.right_pressed || self.left_pressed
            || self.up_pressed || self.down_pressed
    }

    /// The motions to apply, given the current distance from eye to target.
    ///
    /// Forward motion is clamped: it is planned only while the remaining
    /// distance to the target strictly exceeds one step, so the eye never
    /// reaches or overshoots the target. Backward motion is unclamped.
    /// The rotating motions need the eye-to-target offset renormalized, so
    /// they are planned only when the distance is a positive finite value —
    /// an eye sitting on its target has no offset to rescale.
    pub open spec fn motion_plan_spec(self, distance_to_target: Scalar) -> MotionPlan {
        MotionPlan {
            forward: self.forward_pressed && distance_to_target.spec_gt(self.speed),
            backward: self.backward_pressed,
            strafe_right: self.right_pressed && distance_to_target.is_positive_finite(),
            strafe_left: self.left_pressed && distance_to_target.is_positive_finite(),
            rise: self.up_pressed && distance_to_target.is_positive_finite(),
            descend: self.down_pressed && distance_to_target.is_positive_finite(),
        }
    }

    /// Decides the motions for the current frame from the recorded keys
    /// and the distance from eye to target.
    ///
    /// The embedding applies the planned forward/backward step first; the
    /// rotating motions depend on the distance after that step, so it asks
    /// again with the updated distance before applying them.
    pub fn motion_plan(&self, distance_to_target: Scalar) -> (r: MotionPlan)
        ensures
            r == self.motion_plan_spec(distance_to_target),
    {
        let rotating_ok = scalar_is_positive_finite(distance_to_target);
        MotionPlan {
            forward: self.forward_pressed && scalar_gt(distance_to_target, self.speed),
            backward: self.backward_pressed,
            strafe_right: self.right_pressed && rotating_ok,
            strafe_left: self.left_pressed && rotating_ok,
            rise: self.up_pressed && rotating_ok,
            descend: self.down_pressed && rotating_ok,
        }
    }
}

/// Law: an idle controller — no tracked key pressed — plans no motion at
/// all, whatever the distance to the target; the camera is left unchanged
/// and no matrix re-upload is needed.
pub proof fn lemma_idle_controller_plans_nothing(c: CameraController, distance_to_target: Scalar)
    requires
        !c.any_pressed(),
    ensures
        c.motion_plan_spec(distance_to_target).is_idle(),
{
}

/// Law (forward clamp): whenever the distance to the target does not
/// strictly exceed the step size, no forward motion is planned — the eye is
/// never driven onto or past the target.
pub proof fn lemma_forward_motion_clamped(c: CameraController, distance_to_target: Scalar)
    requires
        !distance_to_target.spec_gt(c.speed),
    ensures
        !c.motion_plan_spec(distance_to_target).forward,
{
}

} // verus!
