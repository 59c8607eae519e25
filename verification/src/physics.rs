//! What the controller reads from, and hands to, the physics engine each tick.

use vstd::prelude::*;
use crate::fixed::Fixed;
use crate::query::Entity;
use crate::vec3::Vec3;

verus! {

/// The length of one physics step, in seconds.
#[derive(Clone, Copy, Debug, PartialEq, Eq, Structural)]
pub struct PhysicsDeltaTime(pub Fixed);

/// The force that the controller asks for, all contributions summed.
#[derive(Clone, Copy, Debug, PartialEq, Eq, Structural)]
pub struct ControllerForce {
    /// The linear force.
    pub linear: Vec3,
    /// The torque.
    pub angular: Vec3,
}

/// The mass properties of the controlled body.
#[derive(Clone, Copy, Debug, PartialEq, Eq, Structural)]
pub struct ControllerMass {
    /// The mass.
    pub mass: Fixed,
    /// The principal inertia, axis by axis.
    pub inertia: Vec3,
    /// The center of mass, in the body's own frame.
    pub local_center_of_mass: Vec3,
}

/// The velocity of the controlled body.
#[derive(Clone, Copy, Debug, PartialEq, Eq, Structural)]
pub struct ControllerVelocity {
    /// The linear velocity.
    pub linear: Vec3,
    /// The angular velocity.
    pub angular: Vec3,
}

/// An impulse that is waiting to be handed to the physics engine.
#[derive(Clone, Copy, Debug, PartialEq, Eq, Structural)]
pub struct ExternalImpulse {
    /// The linear impulse.
    pub impulse: Vec3,
    /// The angular impulse.
    pub torque_impulse: Vec3,
}

/// The physics-side state of a controller: force out, mass and velocity in.
#[derive(Clone, Copy, Debug, PartialEq, Eq, Structural)]
pub struct ControllerPhysicsBundle {
    /// The force that the controller asks for.
    pub force: ControllerForce,
    /// The mass properties of the body.
    pub mass: ControllerMass,
    /// The velocity of the body.
    pub velocity: ControllerVelocity,
}

/// What the host reads of the controlled body at the start of a tick.
#[derive(Clone, Copy, Debug, PartialEq, Eq, Structural)]
pub struct BodyState {
    /// The body itself.
    pub entity: Entity,
    /// Where the body's origin lies, in world space.
    pub translation: Vec3,
    /// Where the ground cast starts, in world space: the caster's cast origin as the body's
    /// pose places it.
    pub cast_position: Vec3,
    /// The body's own up axis, in world space.
    pub up: Vec3,
    /// The turn from the body's orientation to the facing that is asked for, as an axis whose
    /// length is the angle; `None` where no facing is asked for.
    pub facing: Option<Vec3>,
    /// The velocity of the body.
    pub velocity: ControllerVelocity,
    /// The mass properties of the body.
    pub mass: ControllerMass,
}

impl ExternalImpulse {
    /// The impulse with what the force adds up to over `dt` added on.
    pub open spec fn spec_pushed(self, linear: Vec3, angular: Vec3, dt: Fixed) -> ExternalImpulse {
        ExternalImpulse {
            impulse: self.impulse.spec_plus(linear.spec_scale(dt)),
            torque_impulse: self.torque_impulse.spec_plus(angular.spec_scale(dt)),
        }
    }
}

/// Adds what the controller's force adds up to over `dt` to the impulse on its body.
pub fn apply_forces(impulse: &mut ExternalImpulse, force: &ControllerForce, dt: Fixed)
    ensures
        *final(impulse) == old(impulse).spec_pushed(force.linear, force.angular, dt),
{
    impulse.impulse = impulse.impulse.plus(force.linear.scale(dt));
    impulse.torque_impulse = impulse.torque_impulse.plus(force.angular.scale(dt));
}

impl Default for ControllerForce {
    fn default() -> (force: Self)
        ensures
            force.linear == Vec3::zero(),
            force.angular == Vec3::zero(),
    {
        ControllerForce { linear: Vec3::zero(), angular: Vec3::zero() }
    }
}

impl Default for ControllerMass {
    fn default() -> (mass: Self)
        ensures
            mass.mass == Fixed::zero(),
            mass.inertia == Vec3::zero(),
            mass.local_center_of_mass == Vec3::zero(),
    {
        ControllerMass {
            mass: Fixed::zero(),
            inertia: Vec3::zero(),
            local_center_of_mass: Vec3::zero(),
        }
    }
}

impl Default for ControllerVelocity {
    fn default() -> (velocity: Self)
        ensures
            velocity.linear == Vec3::zero(),
            velocity.angular == Vec3::zero(),
    {
        ControllerVelocity { linear: Vec3::zero(), angular: Vec3::zero() }
    }
}

impl Default for ExternalImpulse {
    fn default() -> (impulse: Self)
        ensures
            impulse.impulse == Vec3::zero(),
            impulse.torque_impulse == Vec3::zero(),
    {
        ExternalImpulse { impulse: Vec3::zero(), torque_impulse: Vec3::zero() }
    }
}

impl Default for ControllerPhysicsBundle {
    fn default() -> (bundle: Self)
        ensures
            bundle.force.linear == Vec3::zero(),
            bundle.force.angular == Vec3::zero(),
            bundle.mass.mass == Fixed::zero(),
            bundle.velocity.linear == Vec3::zero(),
            bundle.velocity.angular == Vec3::zero(),
    {
        ControllerPhysicsBundle {
            force: ControllerForce::default(),
            mass: ControllerMass::default(),
            velocity: ControllerVelocity::default(),
        }
    }
}

} // verus!
