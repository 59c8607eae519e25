//! The two springs of a controller: the one that holds it above the ground, and the one that
//! keeps it upright.

use vstd::prelude::*;
use crate::controller::gravity::Gravity;
use crate::controller::ground::{Ground, ViableGroundCast, float_offset};
use crate::fixed::{Fixed, RAW_MAX, SCALE, floor_sqrt, lemma_floor_sqrt, lemma_square_monotonic,
    trunc_div};
use crate::physics::{ControllerMass, ControllerVelocity};
use crate::spring::{Spring, SpringStrength};
use crate::vec3::Vec3;

verus! {

/// How far above the ground the controller floats, and how stiffly.
#[derive(Clone, Copy, Debug, PartialEq, Eq, Structural)]
pub struct Float {
    /// The distance to the ground that the spring aims for.
    pub distance: Fixed,
    /// How far the body may sit below the float distance and still count as grounded. Not
    /// positive.
    pub min_offset: Fixed,
    /// How far the body may sit above the float distance and still count as grounded. Not
    /// negative.
    pub max_offset: Fixed,
    /// The spring that pushes the body to the float distance.
    pub spring: Spring,
}

impl Float {
    /// The tolerated band reaches from at or below the float distance to at or above it.
    pub open spec fn wf(&self) -> bool {
        self.min_offset.raw <= 0 <= self.max_offset.raw
    }
}

impl Default for Float {
    fn default() -> (float: Self)
        ensures
            float.wf(),
            float.distance.raw == 550_000,
            float.min_offset.raw == -550_000,
            float.max_offset.raw == 100_000,
            float.spring.strength == SpringStrength::AngularFrequency(Fixed { raw: 12_000_000 }),
            float.spring.damping.raw == 800_000,
    {
        Float {
            distance: Fixed::from_raw(550_000),
            min_offset: Fixed::from_raw(-550_000),
            max_offset: Fixed::from_raw(100_000),
            spring: Spring {
                strength: SpringStrength::AngularFrequency(Fixed::from_raw(12_000_000)),
                damping: Fixed::from_raw(800_000),
            },
        }
    }
}


/// The force that holds the controller above the ground.
#[derive(Clone, Copy, Debug, PartialEq, Eq, Structural)]
pub struct FloatForce {
    /// The linear force.
    pub linear: Vec3,
}

impl Default for FloatForce {
    fn default() -> (force: Self)
        ensures
            force.linear == Vec3::zero(),
    {
        FloatForce { linear: Vec3::zero() }
    }
}


/// The velocity of the body's origin: the linear velocity and what the turning about the
/// center of mass adds to it.
pub open spec fn origin_velocity(velocity: ControllerVelocity, mass: ControllerMass) -> Vec3 {
    velocity.linear.spec_plus(
        velocity.angular.spec_cross(Vec3::spec_zero().spec_minus(mass.local_center_of_mass)),
    )
}

/// How fast the body moves away from the ground along the up vector: its own speed along
/// that vector less that of the ground at the point of contact.
pub open spec fn rising_speed(
    velocity: ControllerVelocity,
    mass: ControllerMass,
    up_vector: Vec3,
    ground: Ground,
) -> Fixed {
    up_vector.spec_dot(origin_velocity(velocity, mass)).spec_minus(
        up_vector.spec_dot(ground.point_velocity),
    )
}

/// What a damped spring answers, axis by axis: the stiffness times how far the body is from
/// rest, less the damping times how fast it moves away.
pub open spec fn spring_push(
    stiffness: Vec3,
    damping: Vec3,
    displacement: Fixed,
    speed: Fixed,
) -> Vec3 {
    stiffness.spec_scale(displacement).spec_minus(damping.spec_scale(speed))
}

/// The float force over the given ground: the up vector times the answer of the float spring
/// to how far the body sits below the float distance and how fast it rises.
pub open spec fn float_linear(
    translation: Vec3,
    float: Float,
    ground: Ground,
    velocity: ControllerVelocity,
    mass: ControllerMass,
    gravity: Gravity,
) -> Vec3 {
    gravity.up_vector.spec_times(
        spring_push(
            float.spring.strength.spec_get(Vec3::spec_splat(mass.mass)),
            float.spring.spec_damp_coefficient(Vec3::spec_splat(mass.mass)),
            float_offset(translation, gravity.up_vector, float, ground),
            rising_speed(velocity, mass, gravity.up_vector, ground),
        ),
    )
}

/// Works out the force that holds the body at `translation` at the float distance above the
/// ground. In the air, with no current viable ground, there is no such force.
pub fn float_force(
    translation: Vec3,
    force: &mut FloatForce,
    float: &Float,
    viable_ground: &ViableGroundCast,
    velocity: &ControllerVelocity,
    mass: &ControllerMass,
    gravity: &Gravity,
)
    ensures
        final(force).linear == match viable_ground.0.spec_current() {
            Some(ground) => float_linear(translation, *float, ground, *velocity, *mass, *gravity),
            None => Vec3::spec_zero(),
        },
{
    force.linear = Vec3::zero();
    if let Some(ground) = viable_ground.0.current() {
        let up_vector = gravity.up_vector;
        let controller_point_velocity = velocity.linear.plus(
            velocity.angular.cross(Vec3::zero().minus(mass.local_center_of_mass)),
        );
        let vel_align = up_vector.dot(controller_point_velocity);
        let ground_vel_align = up_vector.dot(ground.point_velocity);
        let relative_velocity = vel_align.minus(ground_vel_align);

        let worldspace_diff = translation.dot(up_vector).minus(ground.cast.point.dot(up_vector));
        let displacement = float.distance.minus(worldspace_diff);

        let strength = float.spring.strength.get(Vec3::splat(mass.mass)).scale(displacement);
        let damping = float.spring.damp_coefficient(Vec3::splat(mass.mass)).scale(
            relative_velocity,
        );
        force.linear = up_vector.times(strength.minus(damping));
    }
}

/// How the controller is kept upright, and turned to face a direction.
#[derive(Clone, Copy, Debug, PartialEq, Eq, Structural)]
pub struct Upright {
    /// The spring that turns the body upright.
    pub spring: Spring,
    /// The direction to face, at right angles to the up vector and of length one, or `None`
    /// to face any direction.
    pub forward_vector: Option<Vec3>,
    /// Whether the turning that is damped is the turning relative to the ground, so that a
    /// controller that rides a turning platform is not held back.
    pub relative_to_ground: bool,
}

impl Default for Upright {
    fn default() -> (upright: Self)
        ensures
            upright.spring.strength == SpringStrength::AngularFrequency(Fixed { raw: 25_000_000 }),
            upright.spring.damping.raw == 500_000,
            upright.forward_vector is None,
            !upright.relative_to_ground,
    {
        Upright {
            spring: Spring {
                strength: SpringStrength::AngularFrequency(Fixed::from_raw(25_000_000)),
                damping: Fixed::from_raw(500_000),
            },
            forward_vector: None,
            relative_to_ground: false,
        }
    }
}

/// The torque that keeps the controller upright.
#[derive(Clone, Copy, Debug, PartialEq, Eq, Structural)]
pub struct UprightForce {
    /// The torque.
    pub angular: Vec3,
}

impl Default for UprightForce {
    fn default() -> (force: Self)
        ensures
            force.angular == Vec3::zero(),
    {
        UprightForce { angular: Vec3::zero() }
    }
}

/// The rotation that would set the body right, as an axis whose length is the angle: the
/// turn to the facing that is asked for where there is one and the host has measured it,
/// else the cross product of the body's own up axis with the up vector.
pub open spec fn desired_axis(
    upright: Upright,
    body_up: Vec3,
    facing: Option<Vec3>,
    gravity: Gravity,
) -> Vec3 {
    match (upright.forward_vector, facing) {
        (Some(_), Some(turn)) => turn,
        _ => body_up.spec_cross(gravity.up_vector),
    }
}

/// The turning that the upright spring damps: the angular velocity of the body, less that of
/// the viable ground that was found last where the spring works relative to the ground.
pub open spec fn damped_spin(
    upright: Upright,
    velocity: ControllerVelocity,
    viable_ground: ViableGroundCast,
) -> Vec3 {
    match viable_ground.0.spec_last() {
        Some(ground) => if upright.relative_to_ground {
            velocity.angular.spec_minus(ground.angular_velocity)
        } else {
            velocity.angular
        },
        None => velocity.angular,
    }
}

/// The upright torque: on each axis the stiffness times the rotation that is wanted, less
/// the damping times the turning that is damped.
pub open spec fn upright_angular(
    upright: Upright,
    body_up: Vec3,
    facing: Option<Vec3>,
    gravity: Gravity,
    mass: ControllerMass,
    velocity: ControllerVelocity,
    viable_ground: ViableGroundCast,
) -> Vec3 {
    desired_axis(upright, body_up, facing, gravity).spec_times(
        upright.spring.strength.spec_get(mass.inertia),
    ).spec_minus(
        damped_spin(upright, velocity, viable_ground).spec_times(
            upright.spring.spec_damp_coefficient(mass.inertia),
        ),
    )
}

/// Works out the torque that keeps the body upright, and facing the direction that is asked
/// for. `body_up` is the body's own up axis in world space; `facing` is the turn from the
/// body's orientation to the one that is asked for, as an axis whose length is the angle,
/// where the host has measured it.
pub fn upright_force(
    force: &mut UprightForce,
    upright: &Upright,
    body_up: Vec3,
    facing: Option<Vec3>,
    gravity: &Gravity,
    mass: &ControllerMass,
    velocity: &ControllerVelocity,
    viable_ground: &ViableGroundCast,
)
    ensures
        final(force).angular == upright_angular(
            *upright,
            body_up,
            facing,
            *gravity,
            *mass,
            *velocity,
            *viable_ground,
        ),
{
    let desired_axis = match (upright.forward_vector, facing) {
        (Some(_), Some(turn)) => turn,
        _ => body_up.cross(gravity.up_vector),
    };
    let damping = upright.spring.damp_coefficient(mass.inertia);
    let spin = match viable_ground.0.last() {
        Some(ground) => if upright.relative_to_ground {
            velocity.angular.minus(ground.angular_velocity)
        } else {
            velocity.angular
        },
        None => velocity.angular,
    };
    force.angular = desired_axis.times(upright.spring.strength.get(mass.inertia)).minus(
        spin.times(damping),
    );
}

/// A spring at rest pushes nowhere: where the body is at its rest position and does not move,
/// the answer of the spring is zero on every axis.
pub proof fn law_spring_at_rest(stiffness: Vec3, damping: Vec3)
    ensures
        spring_push(stiffness, damping, Fixed::spec_zero(), Fixed::spec_zero())
            == Vec3::spec_zero(),
{
    assert(stiffness.x.raw * 0 == 0 && stiffness.y.raw * 0 == 0 && stiffness.z.raw * 0 == 0)
        by (nonlinear_arith);
    assert(damping.x.raw * 0 == 0 && damping.y.raw * 0 == 0 && damping.z.raw * 0 == 0)
        by (nonlinear_arith);
}

/// The float force is exactly zero where the body sits at the float distance and does not
/// move toward or away from the ground.
pub proof fn law_float_force_zero_at_rest(
    translation: Vec3,
    float: Float,
    ground: Ground,
    velocity: ControllerVelocity,
    mass: ControllerMass,
    gravity: Gravity,
)
    requires
        float_offset(translation, gravity.up_vector, float, ground).raw == 0,
        rising_speed(velocity, mass, gravity.up_vector, ground).raw == 0,
    ensures
        float_linear(translation, float, ground, velocity, mass, gravity) == Vec3::spec_zero(),
{
    law_spring_at_rest(
        float.spring.strength.spec_get(Vec3::spec_splat(mass.mass)),
        float.spring.spec_damp_coefficient(Vec3::spec_splat(mass.mass)),
    );
    let up = gravity.up_vector;
    assert(up.x.raw * 0 == 0 && up.y.raw * 0 == 0 && up.z.raw * 0 == 0) by (nonlinear_arith);
}

/// A product that is rounded toward zero keeps the sign of the exact product.
pub proof fn lemma_rounded_product_sign(a: int, b: int)
    ensures
        a >= 0 && b >= 0 ==> trunc_div(a * b, SCALE as int) >= 0,
        a <= 0 && b <= 0 ==> trunc_div(a * b, SCALE as int) >= 0,
        a >= 0 && b <= 0 ==> trunc_div(a * b, SCALE as int) <= 0,
        a <= 0 && b >= 0 ==> trunc_div(a * b, SCALE as int) <= 0,
        a >= SCALE && b >= 1 ==> trunc_div(a * b, SCALE as int) >= 1,
{
    if a >= 0 && b >= 0 {
        assert(a * b >= 0) by (nonlinear_arith)
            requires
                a >= 0,
                b >= 0,
        ;
    }
    if a <= 0 && b <= 0 {
        assert(a * b >= 0) by (nonlinear_arith)
            requires
                a <= 0,
                b <= 0,
        ;
    }
    if a >= 0 && b <= 0 {
        assert(a * b <= 0) by (nonlinear_arith)
            requires
                a >= 0,
                b <= 0,
        ;
    }
    if a <= 0 && b >= 0 {
        assert(a * b <= 0) by (nonlinear_arith)
            requires
                a <= 0,
                b >= 0,
        ;
    }
    if a >= SCALE && b >= 1 {
        assert(a * b >= SCALE) by (nonlinear_arith)
            requires
                a >= SCALE,
                b >= 1,
        ;
    }
}

/// Below the float distance the spring pushes up: where the body sits closer to the ground
/// than the float distance and does not move away from it, and neither stiffness nor damping
/// is negative, the answer of the spring is not negative on any axis, and it is positive on
/// each axis whose stiffness is at least one.
pub proof fn law_spring_pushes_away(
    stiffness: Vec3,
    damping: Vec3,
    displacement: Fixed,
    speed: Fixed,
)
    requires
        displacement.raw > 0,
        speed.raw <= 0,
        stiffness.x.raw >= 0 && stiffness.y.raw >= 0 && stiffness.z.raw >= 0,
        damping.x.raw >= 0 && damping.y.raw >= 0 && damping.z.raw >= 0,
    ensures
        spring_push(stiffness, damping, displacement, speed).x.raw >= 0,
        spring_push(stiffness, damping, displacement, speed).y.raw >= 0,
        spring_push(stiffness, damping, displacement, speed).z.raw >= 0,
        stiffness.x.raw >= SCALE ==> spring_push(stiffness, damping, displacement, speed).x.raw > 0,
        stiffness.y.raw >= SCALE ==> spring_push(stiffness, damping, displacement, speed).y.raw > 0,
        stiffness.z.raw >= SCALE ==> spring_push(stiffness, damping, displacement, speed).z.raw > 0,
{
    lemma_rounded_product_sign(stiffness.x.raw as int, displacement.raw as int);
    lemma_rounded_product_sign(stiffness.y.raw as int, displacement.raw as int);
    lemma_rounded_product_sign(stiffness.z.raw as int, displacement.raw as int);
    lemma_rounded_product_sign(damping.x.raw as int, speed.raw as int);
    lemma_rounded_product_sign(damping.y.raw as int, speed.raw as int);
    lemma_rounded_product_sign(damping.z.raw as int, speed.raw as int);
}

/// Whether the stiffness of the spring is given as a number that is not negative. An angular
/// frequency always is: it enters the stiffness as its square.
pub open spec fn stiffness_not_negative(spring: Spring) -> bool {
    match spring.strength {
        SpringStrength::AngularFrequency(_) => true,
        SpringStrength::StiffnessCoefficient(stiffness) => stiffness.raw >= 0,
    }
}

/// A spring whose stiffness and damping ratio are not negative has, on a mass that is not
/// negative, a stiffness and a damping coefficient that are not negative on any axis.
pub proof fn lemma_sane_spring(spring: Spring, mass: Fixed)
    requires
        mass.raw >= 0,
        spring.damping.raw >= 0,
        stiffness_not_negative(spring),
    ensures
        ({
            let stiffness = spring.strength.spec_get(Vec3::spec_splat(mass));
            stiffness.x.raw >= 0 && stiffness.y.raw >= 0 && stiffness.z.raw >= 0
        }),
        ({
            let damping = spring.spec_damp_coefficient(Vec3::spec_splat(mass));
            damping.x.raw >= 0 && damping.y.raw >= 0 && damping.z.raw >= 0
        }),
{
    let masses = Vec3::spec_splat(mass);
    match spring.strength {
        SpringStrength::AngularFrequency(angular) => {
            lemma_rounded_product_sign(mass.raw as int, angular.raw as int);
            let once = mass.spec_times(angular);
            lemma_rounded_product_sign(once.raw as int, angular.raw as int);
        },
        SpringStrength::StiffnessCoefficient(_) => {},
    }
    let stiffness = spring.strength.spec_get(masses);
    let critical = spring.spec_critical_damping_point(masses);
    let km = masses.spec_times(stiffness);
    lemma_floor_sqrt_not_negative(km.x.raw * SCALE);
    lemma_floor_sqrt_not_negative(km.y.raw * SCALE);
    lemma_floor_sqrt_not_negative(km.z.raw * SCALE);
    assert(km.x.spec_sqrt().raw >= 0 && km.y.spec_sqrt().raw >= 0 && km.z.spec_sqrt().raw >= 0);
    assert(critical.x.raw >= 0 && critical.y.raw >= 0 && critical.z.raw >= 0);
    lemma_rounded_product_sign(critical.x.raw as int, spring.damping.raw as int);
    lemma_rounded_product_sign(critical.y.raw as int, spring.damping.raw as int);
    lemma_rounded_product_sign(critical.z.raw as int, spring.damping.raw as int);
}

/// The square root of a fixed-point number, as a raw value, fits the range and is not
/// negative.
pub proof fn lemma_floor_sqrt_not_negative(n: int)
    requires
        n <= RAW_MAX * SCALE,
    ensures
        0 <= floor_sqrt(n) <= RAW_MAX,
{
    if n > 0 {
        lemma_floor_sqrt(n);
        let r: int = floor_sqrt(n);
        if r > RAW_MAX {
            lemma_square_monotonic(RAW_MAX as int + 1, r);
        }
    }
}

/// Below the float distance the float force points along the up vector: where the body sits
/// closer to the ground than the float distance and does not move away from it, and neither
/// the mass nor the stiffness nor the damping ratio of the float spring is negative, each
/// component of the force has the sign of the up vector's, or is zero.
pub proof fn law_float_force_points_up(
    translation: Vec3,
    float: Float,
    ground: Ground,
    velocity: ControllerVelocity,
    mass: ControllerMass,
    gravity: Gravity,
)
    requires
        float_offset(translation, gravity.up_vector, float, ground).raw > 0,
        rising_speed(velocity, mass, gravity.up_vector, ground).raw <= 0,
        mass.mass.raw >= 0,
        float.spring.damping.raw >= 0,
        stiffness_not_negative(float.spring),
    ensures
        ({
            let force = float_linear(translation, float, ground, velocity, mass, gravity);
            let up = gravity.up_vector;
            &&& up.x.raw >= 0 ==> force.x.raw >= 0
            &&& up.x.raw <= 0 ==> force.x.raw <= 0
            &&& up.y.raw >= 0 ==> force.y.raw >= 0
            &&& up.y.raw <= 0 ==> force.y.raw <= 0
            &&& up.z.raw >= 0 ==> force.z.raw >= 0
            &&& up.z.raw <= 0 ==> force.z.raw <= 0
        }),
{
    let stiffness = float.spring.strength.spec_get(Vec3::spec_splat(mass.mass));
    let damping = float.spring.spec_damp_coefficient(Vec3::spec_splat(mass.mass));
    let displacement = float_offset(translation, gravity.up_vector, float, ground);
    let speed = rising_speed(velocity, mass, gravity.up_vector, ground);
    lemma_sane_spring(float.spring, mass.mass);
    law_spring_pushes_away(stiffness, damping, displacement, speed);
    let push = spring_push(stiffness, damping, displacement, speed);
    let up = gravity.up_vector;
    lemma_rounded_product_sign(up.x.raw as int, push.x.raw as int);
    lemma_rounded_product_sign(up.y.raw as int, push.y.raw as int);
    lemma_rounded_product_sign(up.z.raw as int, push.z.raw as int);
}

/// A body that stands upright and does not turn gets no upright torque: where its own up axis
/// is the up vector, no facing is asked for and the turning that is damped is zero, the
/// torque is zero.
pub proof fn law_upright_at_rest(
    upright: Upright,
    gravity: Gravity,
    mass: ControllerMass,
    velocity: ControllerVelocity,
    viable_ground: ViableGroundCast,
)
    requires
        upright.forward_vector is None,
        damped_spin(upright, velocity, viable_ground) == Vec3::spec_zero(),
    ensures
        upright_angular(upright, gravity.up_vector, None, gravity, mass, velocity, viable_ground)
            == Vec3::spec_zero(),
{
    let up = gravity.up_vector;
    assert(up.y.raw * up.z.raw == up.z.raw * up.y.raw) by (nonlinear_arith);
    assert(up.z.raw * up.x.raw == up.x.raw * up.z.raw) by (nonlinear_arith);
    assert(up.x.raw * up.y.raw == up.y.raw * up.x.raw) by (nonlinear_arith);
    assert(up.spec_cross(up) == Vec3::spec_zero());
    let stiffness = upright.spring.strength.spec_get(mass.inertia);
    let damping = upright.spring.spec_damp_coefficient(mass.inertia);
    assert(0 * stiffness.x.raw == 0 && 0 * stiffness.y.raw == 0 && 0 * stiffness.z.raw == 0)
        by (nonlinear_arith);
    assert(0 * damping.x.raw == 0 && 0 * damping.y.raw == 0 && 0 * damping.z.raw == 0)
        by (nonlinear_arith);
}

} // verus!
