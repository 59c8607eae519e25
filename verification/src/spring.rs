//! Strengths and damped springs.

use vstd::prelude::*;
use crate::fixed::Fixed;
use crate::vec3::Vec3;

verus! {

/// How strongly a movement pulls toward its goal.
#[derive(Clone, Copy, Debug, PartialEq, Eq, Structural)]
pub enum Strength {
    /// Scaled by the mass and by the inverse of the time step: one reaches the goal in a step.
    Instant(Fixed),
    /// Scaled by the mass, so that bodies of every mass respond alike.
    Scaled(Fixed),
    /// Used as it is.
    Raw(Fixed),
}

impl Strength {
    /// The strength for a body of the given mass over a step of `dt`.
    pub open spec fn spec_get(&self, mass: Fixed, dt: Fixed) -> Fixed {
        match *self {
            Strength::Instant(raw) => raw.times(mass).over(dt),
            Strength::Scaled(raw) => raw.times(mass),
            Strength::Raw(raw) => raw,
        }
    }

    /// The strength for a body of the given mass over a step of `dt`.
    #[verifier::when_used_as_spec(spec_get)]
    pub fn get(&self, mass: Fixed, dt: Fixed) -> (strength: Fixed)
        ensures
            strength == self.spec_get(mass, dt),
    {
        match *self {
            Strength::Instant(raw) => raw.times(mass).over(dt),
            Strength::Scaled(raw) => raw.times(mass),
            Strength::Raw(raw) => raw,
        }
    }
}

/// How the stiffness of a spring is given.
#[derive(Clone, Copy, Debug, PartialEq, Eq, Structural)]
pub enum SpringStrength {
    /// The angular frequency that the spring should have; the stiffness follows the mass.
    AngularFrequency(Fixed),
    /// The stiffness itself.
    StiffnessCoefficient(Fixed),
}

impl SpringStrength {
    /// The stiffness for each axis, given the mass or inertia on that axis.
    pub open spec fn spec_get(&self, mass: Vec3) -> Vec3 {
        match *self {
            SpringStrength::AngularFrequency(angular) => mass.spec_scale(angular).spec_scale(
                angular,
            ),
            SpringStrength::StiffnessCoefficient(raw) => Vec3::spec_splat(raw),
        }
    }

    /// The stiffness for each axis, given the mass or inertia on that axis.
    #[verifier::when_used_as_spec(spec_get)]
    pub fn get(&self, mass: Vec3) -> (stiffness: Vec3)
        ensures
            stiffness == self.spec_get(mass),
    {
        match *self {
            SpringStrength::AngularFrequency(angular) => mass.scale(angular).scale(angular),
            SpringStrength::StiffnessCoefficient(raw) => Vec3::splat(raw),
        }
    }
}

/// A damped harmonic oscillator.
#[derive(Clone, Copy, Debug, PartialEq, Eq, Structural)]
pub struct Spring {
    /// How strongly the spring pushes toward its rest position.
    pub strength: SpringStrength,
    /// The damping ratio: below one the spring overshoots, at one it just reaches its rest
    /// position, above one it creeps toward it.
    pub damping: Fixed,
}

impl Spring {
    /// The damping that just reaches the rest position without passing it: on each axis twice
    /// the square root of stiffness times inertia.
    pub open spec fn spec_critical_damping_point(&self, inertia: Vec3) -> Vec3 {
        let km = inertia.spec_times(self.strength.spec_get(inertia));
        Vec3 {
            x: km.x.sqrt().plus(km.x.sqrt()),
            y: km.y.sqrt().plus(km.y.sqrt()),
            z: km.z.sqrt().plus(km.z.sqrt()),
        }
    }

    /// The damping coefficient on each axis: the damping ratio times the critical damping.
    pub open spec fn spec_damp_coefficient(&self, inertia: Vec3) -> Vec3 {
        self.spec_critical_damping_point(inertia).spec_scale(self.damping)
    }

    /// The damping that just reaches the rest position without passing it: on each axis twice
    /// the square root of stiffness times inertia.
    #[verifier::when_used_as_spec(spec_critical_damping_point)]
    pub fn critical_damping_point(&self, inertia: Vec3) -> (critical: Vec3)
        ensures
            critical == self.spec_critical_damping_point(inertia),
    {
        let km = inertia.times(self.strength.get(inertia));
        let x = km.x.sqrt();
        let y = km.y.sqrt();
        let z = km.z.sqrt();
        Vec3 { x: x.plus(x), y: y.plus(y), z: z.plus(z) }
    }

    /// The damping coefficient on each axis: the damping ratio times the critical damping.
    #[verifier::when_used_as_spec(spec_damp_coefficient)]
    pub fn damp_coefficient(&self, inertia: Vec3) -> (coefficient: Vec3)
        ensures
            coefficient == self.spec_damp_coefficient(inertia),
    {
        self.critical_damping_point(inertia).scale(self.damping)
    }
}

impl Default for Spring {
    fn default() -> (spring: Self)
        ensures
            spring.strength == SpringStrength::AngularFrequency(Fixed::one()),
            spring.damping == (Fixed { raw: 250_000 }),
    {
        Spring {
            strength: SpringStrength::AngularFrequency(Fixed::one()),
            damping: Fixed::from_raw(250_000),
        }
    }
}

} // verus!
