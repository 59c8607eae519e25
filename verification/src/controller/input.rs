//! What the player, or the game, asks of the controller.

use vstd::prelude::*;
use crate::fixed::Fixed;
use crate::vec3::Vec3;

verus! {

/// The intent for one tick.
#[derive(Clone, Copy, Debug, PartialEq, Eq, Structural)]
pub struct ControllerInput {
    /// Where to move. A vector longer than one counts as one of length one.
    pub movement: Vec3,
    /// Whether the jump control is held down.
    pub jumping: bool,
}

impl ControllerInput {
    /// The direction of movement that is acted on: `movement`, shortened to length one where
    /// it is longer.
    pub open spec fn spec_direction(&self) -> Vec3 {
        self.movement.spec_clamp_length_max(Fixed::spec_one())
    }

    /// The direction of movement that is acted on: `movement`, shortened to length one where
    /// it is longer.
    #[verifier::when_used_as_spec(spec_direction)]
    pub fn direction(&self) -> (direction: Vec3)
        ensures
            direction == self.spec_direction(),
            direction.norm_sq() <= crate::fixed::SCALE * crate::fixed::SCALE,
    {
        proof {
            crate::vec3::law_clamped_length_within_bound(self.movement, Fixed::spec_one());
        }
        self.movement.clamp_length_max(Fixed::one())
    }
}

impl Default for ControllerInput {
    fn default() -> (input: Self)
        ensures
            input.movement == Vec3::zero(),
            !input.jumping,
    {
        ControllerInput { movement: Vec3::zero(), jumping: false }
    }
}

} // verus!
