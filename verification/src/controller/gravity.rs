//! The pull of gravity on a controller.

use vstd::prelude::*;
use crate::fixed::{Fixed, SCALE};
use crate::physics::ControllerMass;
use crate::vec3::Vec3;

verus! {

/// How far the squared length of an up vector may lie from one, in squared raw units, for the
/// vector to count as normalized.
pub const NORMALIZED_SLACK: i64 = 100_000_000;

/// How strong gravity is for this controller, and which way is up.
#[derive(Clone, Copy, Debug, PartialEq, Eq, Structural)]
pub struct Gravity {
    /// The acceleration along `up_vector`; negative where things fall.
    pub acceleration: Fixed,
    /// The direction that counts as up. Meant to have length one.
    pub up_vector: Vec3,
}

impl Gravity {
    /// Whether the up vector has length one, to within a small tolerance.
    pub open spec fn spec_valid(&self) -> bool {
        SCALE * SCALE - NORMALIZED_SLACK <= self.up_vector.norm_sq() <= SCALE * SCALE
            + NORMALIZED_SLACK
    }

    /// Whether the up vector has length one, to within a small tolerance. The controller runs
    /// on any up vector; a host may warn where this is `false`.
    #[verifier::when_used_as_spec(spec_valid)]
    pub fn valid(&self) -> (ok: bool)
        ensures
            ok == self.spec_valid(),
    {
        let n: u128 = self.up_vector.norm_sq_wide();
        let one: u128 = 1_000_000_000_000;
        assert(one == SCALE * SCALE);
        one - (NORMALIZED_SLACK as u128) <= n && n <= one + (NORMALIZED_SLACK as u128)
    }
}

impl Default for Gravity {
    fn default() -> (gravity: Self)
        ensures
            gravity.acceleration.raw == -9_817_000,
            gravity.up_vector == (Vec3 {
                x: Fixed::spec_zero(),
                y: Fixed::spec_one(),
                z: Fixed::spec_zero(),
            }),
            gravity.spec_valid(),
    {
        Gravity {
            acceleration: Fixed::from_raw(-9_817_000),
            up_vector: Vec3::new(Fixed::zero(), Fixed::one(), Fixed::zero()),
        }
    }
}

/// The gravitational force on a controller.
#[derive(Clone, Copy, Debug, PartialEq, Eq, Structural)]
pub struct GravityForce {
    /// The linear force.
    pub linear: Vec3,
}

impl Default for GravityForce {
    fn default() -> (force: Self)
        ensures
            force.linear == Vec3::zero(),
    {
        GravityForce { linear: Vec3::zero() }
    }
}

/// The weight of a body: the up vector times the mass times the acceleration.
pub open spec fn weight(gravity: Gravity, mass: ControllerMass) -> Vec3 {
    gravity.up_vector.spec_scale(mass.mass).spec_scale(gravity.acceleration)
}

/// Sets the gravitational force to the weight of the body.
pub fn gravity_force(force: &mut GravityForce, gravity: &Gravity, mass: &ControllerMass)
    ensures
        final(force).linear == weight(*gravity, *mass),
{
    force.linear = gravity.up_vector.scale(mass.mass).scale(gravity.acceleration);
}

} // verus!
