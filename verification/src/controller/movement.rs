//! Movement along the ground: from the direction that is asked for to a force.

use vstd::prelude::*;
use crate::controller::gravity::Gravity;
use crate::controller::ground::{Ground, GroundCast, ViableGroundCast};
use crate::controller::input::ControllerInput;
use crate::fixed::{Fixed, SCALE};
use crate::physics::{ControllerMass, ControllerVelocity};
use crate::spring::Strength;
use crate::vec3::{Vec3, law_clamped_length_within_bound};

verus! {

/// How the controller moves where it is told to.
#[derive(Clone, Copy, Debug, PartialEq, Eq, Structural)]
pub struct Movement {
    /// How strongly the controller pulls toward the speed that is asked for.
    pub acceleration: Strength,
    /// The speed at full input.
    pub max_speed: Fixed,
    /// The greatest change of velocity that one tick may ask for, as a length.
    pub max_acceleration_force: Fixed,
    /// Which axes the movement acts on.
    pub force_scale: ForceScale,
    /// How much of a push up a slope that is too steep is taken away, axis by axis. At one on
    /// every axis the controller cannot climb at all.
    pub slip_force_scale: Vec3,
}

/// Which axes a movement force acts on.
#[derive(Clone, Copy, Debug, PartialEq, Eq, Structural)]
pub enum ForceScale {
    /// Every axis but the up vector's.
    Up,
    /// Every axis, fully.
    Unscaled,
    /// Each axis by the given factor.
    Vec3(Vec3),
}

impl Default for ForceScale {
    fn default() -> (scale: Self)
        ensures
            scale is Up,
    {
        ForceScale::Up
    }
}

impl Default for Movement {
    fn default() -> (movement: Self)
        ensures
            movement.acceleration == Strength::Scaled(Fixed { raw: 10_000_000 }),
            movement.max_speed.raw == 5_000_000,
            movement.max_acceleration_force.raw == 10_000_000,
            movement.force_scale is Up,
            movement.slip_force_scale == Vec3::spec_splat(Fixed::spec_one()),
    {
        Movement {
            acceleration: Strength::Scaled(Fixed::from_raw(10_000_000)),
            max_speed: Fixed::from_raw(5_000_000),
            max_acceleration_force: Fixed::from_raw(10_000_000),
            force_scale: ForceScale::Up,
            slip_force_scale: Vec3::splat(Fixed::one()),
        }
    }
}

impl Movement {
    /// The factor on each axis of the movement force. `basis` is a pair of directions of
    /// length one at right angles to the up vector and to each other; for `ForceScale::Up`
    /// the factor is the sum of their absolute values, and one on every axis where the up
    /// vector is zero.
    pub open spec fn spec_force_scale(&self, gravity: &Gravity, basis: (Vec3, Vec3)) -> Vec3 {
        match self.force_scale {
            ForceScale::Vec3(v) => v,
            ForceScale::Up => if gravity.up_vector == Vec3::spec_zero() {
                Vec3::spec_splat(Fixed::spec_one())
            } else {
                basis.0.spec_abs().spec_plus(basis.1.spec_abs())
            },
            ForceScale::Unscaled => Vec3::spec_splat(Fixed::spec_one()),
        }
    }

    /// The factor on each axis of the movement force. `basis` is a pair of directions of
    /// length one at right angles to the up vector and to each other; for `ForceScale::Up`
    /// the factor is the sum of their absolute values, and one on every axis where the up
    /// vector is zero.
    #[verifier::when_used_as_spec(spec_force_scale)]
    pub fn force_scale(&self, gravity: &Gravity, basis: (Vec3, Vec3)) -> (scale: Vec3)
        ensures
            scale == self.spec_force_scale(gravity, basis),
    {
        match self.force_scale {
            ForceScale::Vec3(v) => v,
            ForceScale::Up => if gravity.up_vector.is_zero() {
                Vec3::splat(Fixed::one())
            } else {
                basis.0.abs().plus(basis.1.abs())
            },
            ForceScale::Unscaled => Vec3::splat(Fixed::one()),
        }
    }
}

/// The force that moves the controller.
#[derive(Clone, Copy, Debug, PartialEq, Eq, Structural)]
pub struct MovementForce {
    /// The linear force.
    pub linear: Vec3,
    /// The torque.
    pub angular: Vec3,
}

impl Default for MovementForce {
    fn default() -> (force: Self)
        ensures
            force.linear == Vec3::zero(),
            force.angular == Vec3::zero(),
    {
        MovementForce { linear: Vec3::zero(), angular: Vec3::zero() }
    }
}

/// The ground that the controller slips on: current ground that is not stable.
pub open spec fn slipping_on(ground: GroundCast) -> Option<Ground> {
    match ground.0.spec_current() {
        Some(found) => if found.stable {
            None
        } else {
            Some(found)
        },
        None => None,
    }
}

/// The direction in which the controller slips on `ground`: downhill along the surface, on
/// the axes that the movement acts on, at length one.
pub open spec fn slip_vector(ground: Ground, up_vector: Vec3, force_scale: Vec3) -> Vec3 {
    ground.cast.spec_down_tangent(up_vector).spec_times(force_scale).spec_normalize_or_zero()
}

/// The velocity that the controller aims for, relative to the ground: the direction that is
/// asked for at the greatest speed; where the controller slips, the part of it that leads up
/// the slope is taken away as far as the slip force scale says.
pub open spec fn goal_velocity(
    movement: Movement,
    input: ControllerInput,
    slip: Option<Vec3>,
) -> Vec3 {
    let goal = input.spec_direction().spec_scale(movement.max_speed);
    match slip {
        Some(slip) => {
            let alignment = goal.spec_dot(slip);
            if alignment.raw < 0 {
                goal.spec_minus(slip.spec_scale(alignment).spec_times(movement.slip_force_scale))
            } else {
                goal
            }
        },
        None => goal,
    }
}

/// The velocity of the ground under the controller: that of the current viable ground at the
/// point of contact, and zero in the air.
pub open spec fn ground_velocity(viable_ground: ViableGroundCast) -> Vec3 {
    match viable_ground.0.spec_current() {
        Some(found) => found.point_velocity,
        None => Vec3::spec_zero(),
    }
}

/// The change of velocity that this tick asks for: from the velocity relative to the ground
/// to the goal, on the axes that the movement acts on, and no longer than the greatest
/// change allowed.
pub open spec fn needed_acceleration(
    movement: Movement,
    goal: Vec3,
    relative_velocity: Vec3,
    force_scale: Vec3,
) -> Vec3 {
    goal.spec_minus(relative_velocity).spec_times(force_scale).spec_clamp_length_max(
        movement.max_acceleration_force,
    )
}

/// The linear movement force of one tick.
pub open spec fn movement_linear(
    movement: Movement,
    gravity: Gravity,
    input: ControllerInput,
    ground: GroundCast,
    viable_ground: ViableGroundCast,
    velocity: ControllerVelocity,
    mass: ControllerMass,
    basis: (Vec3, Vec3),
    dt: Fixed,
) -> Vec3 {
    let force_scale = movement.spec_force_scale(&gravity, basis);
    let slip = match slipping_on(ground) {
        Some(found) => Some(slip_vector(found, gravity.up_vector, force_scale)),
        None => None,
    };
    let goal = goal_velocity(movement, input, slip);
    let relative = velocity.linear.spec_minus(ground_velocity(viable_ground));
    let push = needed_acceleration(movement, goal, relative, force_scale).spec_scale(
        movement.acceleration.spec_get(mass.mass, dt),
    );
    match slip {
        Some(slip) => push.spec_plus(slip.spec_scale(mass.mass)),
        None => push,
    }
}

/// Works out the force that moves the controller.
///
/// The direction that is asked for, no longer than one, times the greatest speed is the goal.
/// On ground that is not stable the part of the goal that leads up the slope is taken away
/// and a push down the slope, in proportion to the mass, is added. The force is the change of
/// velocity needed to reach the goal from the velocity relative to the ground, on the axes
/// that the movement acts on, held to the greatest change allowed, times the strength of the
/// acceleration. The torque is left as it was.
pub fn movement_force(
    force: &mut MovementForce,
    movement: &Movement,
    gravity: &Gravity,
    input: &ControllerInput,
    ground: &GroundCast,
    viable_ground: &ViableGroundCast,
    velocity: &ControllerVelocity,
    mass: &ControllerMass,
    basis: (Vec3, Vec3),
    dt: Fixed,
)
    ensures
        final(force).linear == movement_linear(
            *movement,
            *gravity,
            *input,
            *ground,
            *viable_ground,
            *velocity,
            *mass,
            basis,
            dt,
        ),
        final(force).angular == old(force).angular,
{
    let force_scale = movement.force_scale(gravity, basis);
    let input_dir = input.direction();
    let mut goal_vel = input_dir.scale(movement.max_speed);

    let slip_vector = match ground.0.current() {
        Some(found) => if !found.stable {
            let down_tangent = found.cast.down_tangent(gravity.up_vector);
            let slip_vector = down_tangent.times(force_scale).normalize_or_zero();
            // Take away the part of the goal that leads up the slope.
            let alignment = goal_vel.dot(slip_vector);
            if alignment.raw < 0 {
                let slip_goal = slip_vector.scale(alignment);
                goal_vel = goal_vel.minus(slip_goal.times(movement.slip_force_scale));
            }
            Some(slip_vector)
        } else {
            None
        },
        None => None,
    };

    let last_ground_vel = match viable_ground.0.current() {
        Some(found) => found.point_velocity,
        None => Vec3::zero(),
    };
    let relative_velocity = velocity.linear.minus(last_ground_vel);

    let needed = goal_vel.minus(relative_velocity).times(force_scale).clamp_length_max(
        movement.max_acceleration_force,
    );
    let strength = movement.acceleration.get(mass.mass, dt);
    let push = needed.scale(strength);

    force.linear = match slip_vector {
        // Push the controller down the slope.
        Some(slip) => push.plus(slip.scale(mass.mass)),
        None => push,
    };
}

/// The direction that is acted on is never longer than one, whatever direction is asked for.
pub proof fn law_direction_within_unit(input: ControllerInput)
    ensures
        input.spec_direction().norm_sq() <= SCALE * SCALE,
{
    law_clamped_length_within_bound(input.movement, Fixed::spec_one());
}

/// The change of velocity that a tick asks for is never longer than the greatest change
/// allowed.
pub proof fn law_acceleration_within_bound(
    movement: Movement,
    goal: Vec3,
    relative_velocity: Vec3,
    force_scale: Vec3,
)
    requires
        movement.max_acceleration_force.raw >= 0,
    ensures
        needed_acceleration(movement, goal, relative_velocity, force_scale).norm_sq()
            <= movement.max_acceleration_force.raw * movement.max_acceleration_force.raw,
{
    law_clamped_length_within_bound(
        goal.spec_minus(relative_velocity).spec_times(force_scale),
        movement.max_acceleration_force,
    );
}

/// A controller that is asked for no movement and that rests on stable ground, or hangs in
/// the air at rest, gets no movement force.
pub proof fn law_rest_needs_no_force(
    movement: Movement,
    gravity: Gravity,
    input: ControllerInput,
    ground: GroundCast,
    viable_ground: ViableGroundCast,
    velocity: ControllerVelocity,
    mass: ControllerMass,
    basis: (Vec3, Vec3),
    dt: Fixed,
)
    requires
        input.movement == Vec3::spec_zero(),
        slipping_on(ground) is None,
        velocity.linear == ground_velocity(viable_ground),
    ensures
        movement_linear(
            movement,
            gravity,
            input,
            ground,
            viable_ground,
            velocity,
            mass,
            basis,
            dt,
        ) == Vec3::spec_zero(),
{
    let force_scale = movement.spec_force_scale(&gravity, basis);
    let goal = goal_velocity(movement, input, None);
    assert(input.movement.norm_sq() == 0) by (nonlinear_arith)
        requires
            input.movement.x.raw == 0,
            input.movement.y.raw == 0,
            input.movement.z.raw == 0,
    ;
    assert(Fixed::spec_one().raw * Fixed::spec_one().raw >= 0) by (nonlinear_arith);
    assert(input.spec_direction() == Vec3::spec_zero());
    lemma_zero_scaled(movement.max_speed);
    assert(goal == Vec3::spec_zero());
    let relative = velocity.linear.spec_minus(ground_velocity(viable_ground));
    assert(relative == Vec3::spec_zero());
    let difference = goal.spec_minus(relative);
    assert(difference == Vec3::spec_zero());
    lemma_zero_times(force_scale);
    let scaled = difference.spec_times(force_scale);
    assert(scaled == Vec3::spec_zero());
    assert(scaled.norm_sq() == 0) by (nonlinear_arith)
        requires
            scaled.x.raw == 0,
            scaled.y.raw == 0,
            scaled.z.raw == 0,
    ;
    let m: int = if movement.max_acceleration_force.raw < 0 {
        0
    } else {
        movement.max_acceleration_force.raw as int
    };
    assert(m * m >= 0) by (nonlinear_arith);
    let needed = needed_acceleration(movement, goal, relative, force_scale);
    assert(needed == Vec3::spec_zero());
    lemma_zero_scaled(movement.acceleration.spec_get(mass.mass, dt));
}

/// The zero vector scaled by anything is the zero vector.
pub proof fn lemma_zero_scaled(k: Fixed)
    ensures
        Vec3::spec_zero().spec_scale(k) == Vec3::spec_zero(),
{
    assert(0 * k.raw == 0) by (nonlinear_arith);
}

/// The zero vector times any vector, component by component, is the zero vector.
pub proof fn lemma_zero_times(v: Vec3)
    ensures
        Vec3::spec_zero().spec_times(v) == Vec3::spec_zero(),
{
    assert(0 * v.x.raw == 0) by (nonlinear_arith);
    assert(0 * v.y.raw == 0) by (nonlinear_arith);
    assert(0 * v.z.raw == 0) by (nonlinear_arith);
}

} // verus!
