//! The parts of a controller, and how one tick puts them together.

pub mod casting;
pub mod gravity;
pub mod ground;
pub mod input;
pub mod jump;
pub mod movement;
pub mod orientation;
pub mod parts;

use vstd::prelude::*;
use crate::controller::gravity::{Gravity, GravityForce, gravity_force, weight};
use crate::controller::ground::{GroundCast, GroundCaster, GroundForce, Grounded,
    ViableGroundCast, determine_groundedness, find_ground, float_offset, may_find_ground,
    within_grounded_band};
use crate::controller::input::ControllerInput;
use crate::controller::jump::{Jump, JumpForce, jump_force, jump_linear, jump_pushes,
    velocity_over_ground};
use crate::controller::movement::{Movement, MovementForce, movement_force, movement_linear};
use crate::controller::orientation::{Float, FloatForce, Upright, UprightForce, float_force,
    float_linear, upright_angular, upright_force};
use crate::fixed::{Fixed, lemma_times_one};
use crate::physics::{BodyState, ControllerForce, ExternalImpulse};
use crate::query::{Entity, PhysicsBackend, may_center, may_span};
use crate::vec3::Vec3;

verus! {

/// Everything that the forces of a controller are worked out from, and the forces themselves.
pub struct Controller {
    /// How strong gravity is, and which way is up.
    pub gravity: Gravity,
    /// The gravitational force.
    pub gravity_force: GravityForce,
    /// How the ground is looked for.
    pub ground_caster: GroundCaster,
    /// The ground that was found.
    pub ground_cast: GroundCast,
    /// The ground that was found and that the controller can stand on.
    pub viable_ground_cast: ViableGroundCast,
    /// Whether the controller counts as standing on the ground.
    pub grounded: Grounded,
    /// The force on the ground under the controller.
    pub ground_force: GroundForce,
    /// How the controller moves.
    pub movement: Movement,
    /// The force that moves it.
    pub movement_force: MovementForce,
    /// How the controller jumps.
    pub jump: Jump,
    /// The force that makes it jump.
    pub jump_force: JumpForce,
    /// How the controller floats above the ground.
    pub float: Float,
    /// The force that holds it there.
    pub float_force: FloatForce,
    /// How the controller is kept upright.
    pub upright: Upright,
    /// The torque that keeps it upright.
    pub upright_force: UprightForce,
    /// How much of its forces the controller hands on to the ground.
    pub force_settings: ForceSettings,
}

impl Controller {
    /// The caster's thresholds are in order, the float band reaches from below the float
    /// distance to above it, and the jump state is well-formed.
    pub open spec fn wf(&self) -> bool {
        &&& self.ground_caster.wf()
        &&& self.float.wf()
        &&& self.jump.wf()
    }
}

impl Default for Controller {
    fn default() -> (controller: Self)
        ensures
            controller.wf(),
            controller.gravity.spec_valid(),
            controller.ground_cast.0 is Empty,
            controller.viable_ground_cast.0 is Empty,
            !controller.grounded.0,
    {
        Controller {
            gravity: Gravity::default(),
            gravity_force: GravityForce::default(),
            ground_caster: GroundCaster::default(),
            ground_cast: GroundCast::default(),
            viable_ground_cast: ViableGroundCast::default(),
            grounded: Grounded::default(),
            ground_force: GroundForce::default(),
            movement: Movement::default(),
            movement_force: MovementForce::default(),
            jump: Jump::default(),
            jump_force: JumpForce::default(),
            float: Float::default(),
            float_force: FloatForce::default(),
            upright: Upright::default(),
            upright_force: UprightForce::default(),
            force_settings: ForceSettings::default(),
        }
    }
}

/// How much of the controller's forces is handed on to the ground it stands on. Zero on both
/// counts leaves the ground alone.
#[derive(Clone, Copy, Debug, PartialEq, Eq, Structural)]
pub struct ForceSettings {
    /// The share of the jump and float forces that pushes back on the ground.
    pub opposing_force_scale: Fixed,
    /// The share of the movement force that pushes back on the ground. At zero nothing slips
    /// away under the controller's feet.
    pub opposing_movement_force_scale: Fixed,
}

impl Default for ForceSettings {
    fn default() -> (settings: Self)
        ensures
            settings.opposing_force_scale == Fixed::one(),
            settings.opposing_movement_force_scale == Fixed::zero(),
    {
        ForceSettings {
            opposing_force_scale: Fixed::one(),
            opposing_movement_force_scale: Fixed::zero(),
        }
    }
}

/// The linear force on the controller: movement, jump, float and gravity, summed in that
/// order.
pub open spec fn total_linear(
    movement: MovementForce,
    jump: JumpForce,
    float: FloatForce,
    gravity: GravityForce,
) -> Vec3 {
    movement.linear.spec_plus(jump.linear).spec_plus(float.linear).spec_plus(gravity.linear)
}

/// The torque on the controller: that of the movement and the upright torque.
pub open spec fn total_angular(movement: MovementForce, upright: UprightForce) -> Vec3 {
    movement.angular.spec_plus(upright.angular)
}

/// The force with which the controller pushes back: the opposite of the movement force at
/// its share plus the jump and float forces at theirs.
pub open spec fn opposing_force(
    settings: ForceSettings,
    movement: MovementForce,
    jump: JumpForce,
    float: FloatForce,
) -> Vec3 {
    movement.linear.spec_scale(settings.opposing_movement_force_scale).spec_plus(
        jump.linear.spec_plus(float.linear).spec_scale(settings.opposing_force_scale),
    ).spec_neg()
}

/// Sums the forces of the tick into the one force on the controller, and works out the force
/// on the ground.
///
/// The ground gets the opposing force. Where there is current viable ground the force acts at
/// the point of contact, so that its torque about the ground's center of mass
/// `ground_center_of_mass` (in world space) is the lever arm crossed with the force; else
/// there is no torque.
pub fn accumulate_forces(
    settings: &ForceSettings,
    force: &mut ControllerForce,
    ground_force: &mut GroundForce,
    float: &FloatForce,
    upright: &UprightForce,
    movement: &MovementForce,
    jump: &JumpForce,
    gravity: &GravityForce,
    viable_ground: &ViableGroundCast,
    ground_center_of_mass: Vec3,
)
    ensures
        final(force).linear == total_linear(*movement, *jump, *float, *gravity),
        final(force).angular == total_angular(*movement, *upright),
        final(ground_force).linear == opposing_force(*settings, *movement, *jump, *float),
        final(ground_force).angular == match viable_ground.0.spec_current() {
            Some(ground) => ground.cast.point.spec_minus(ground_center_of_mass).spec_cross(
                opposing_force(*settings, *movement, *jump, *float),
            ),
            None => Vec3::spec_zero(),
        },
{
    force.linear = movement.linear.plus(jump.linear).plus(float.linear).plus(gravity.linear);
    force.angular = movement.angular.plus(upright.angular);

    let opposing_force = movement.linear.scale(settings.opposing_movement_force_scale).plus(
        jump.linear.plus(float.linear).scale(settings.opposing_force_scale),
    ).neg();

    match viable_ground.0.current() {
        Some(ground) => {
            ground_force.linear = opposing_force;
            ground_force.angular = ground.cast.point.minus(ground_center_of_mass).cross(
                opposing_force,
            );
        },
        None => {
            ground_force.linear = opposing_force;
            ground_force.angular = Vec3::zero();
        },
    }
}

/// With the full share of everything the ground gets the opposite of what the controller
/// gets from movement, jump and float.
pub proof fn law_full_share_is_equal_and_opposite(
    settings: ForceSettings,
    movement: MovementForce,
    jump: JumpForce,
    float: FloatForce,
)
    requires
        settings.opposing_force_scale == Fixed::spec_one(),
        settings.opposing_movement_force_scale == Fixed::spec_one(),
        movement.linear.x.raw > i64::MIN && movement.linear.y.raw > i64::MIN && movement.linear.z.raw
            > i64::MIN,
    ensures
        opposing_force(settings, movement, jump, float) == movement.linear.spec_plus(
            jump.linear.spec_plus(float.linear),
        ).spec_neg(),
{
    let pushed = jump.linear.spec_plus(float.linear);
    lemma_times_one(movement.linear.x);
    lemma_times_one(movement.linear.y);
    lemma_times_one(movement.linear.z);
    lemma_times_one(pushed.x);
    lemma_times_one(pushed.y);
    lemma_times_one(pushed.z);
}

/// With both shares at zero the ground is left alone: the opposing force is zero.
pub proof fn law_no_share_no_reaction(
    settings: ForceSettings,
    movement: MovementForce,
    jump: JumpForce,
    float: FloatForce,
)
    requires
        settings.opposing_force_scale.raw == 0,
        settings.opposing_movement_force_scale.raw == 0,
    ensures
        opposing_force(settings, movement, jump, float) == Vec3::spec_zero(),
{
    let pushed = jump.linear.spec_plus(float.linear);
    assert(movement.linear.x.raw * 0 == 0 && movement.linear.y.raw * 0 == 0 && movement.linear.z.raw
        * 0 == 0) by (nonlinear_arith);
    assert(pushed.x.raw * 0 == 0 && pushed.y.raw * 0 == 0 && pushed.z.raw * 0 == 0)
        by (nonlinear_arith);
}


/// What a tick asks of the physics engine.
#[derive(Clone, Copy, Debug, PartialEq, Eq, Structural)]
pub struct ForceOutput {
    /// The force on the controlled body.
    pub force: ControllerForce,
    /// The force on the ground under it.
    pub ground_force: GroundForce,
    /// The body that the ground force acts on: that of the current viable ground.
    pub ground: Option<Entity>,
}

/// Whether the body counts as standing on the ground, given what is remembered of the ground.
pub open spec fn stands(
    translation: Vec3,
    gravity: Gravity,
    float: Float,
    viable_ground: ViableGroundCast,
    velocity: Vec3,
) -> bool {
    match viable_ground.0.spec_current() {
        Some(ground) => within_grounded_band(
            float_offset(translation, gravity.up_vector, float, ground),
            velocity.spec_dot(gravity.up_vector),
            float.min_offset,
            float.max_offset,
        ),
        None => false,
    }
}

/// Adds what the ground force adds up to over `dt` to the impulse on the ground body, where
/// there is current viable ground; else the impulse stays.
pub fn apply_ground_forces(
    impulse: &mut ExternalImpulse,
    force: &GroundForce,
    viable_ground: &ViableGroundCast,
    dt: Fixed,
)
    ensures
        *final(impulse) == if viable_ground.0.spec_current() is Some {
            old(impulse).spec_pushed(force.linear, force.angular, dt)
        } else {
            *old(impulse)
        },
{
    if viable_ground.0.current().is_some() {
        impulse.impulse = impulse.impulse.plus(force.linear.scale(dt));
        impulse.torque_impulse = impulse.torque_impulse.plus(force.angular.scale(dt));
    }
}

/// Runs one tick of the controller: finds the ground, decides whether the body stands on it,
/// works out gravity, movement, float, upright and jump forces in that order, and sums them.
///
/// The ground is found through `ctx`, so what is remembered of it afterwards depends on what
/// the engine answered; every force is stated over what is remembered.
pub fn resolve<B: PhysicsBackend>(
    controller: &mut Controller,
    body: &BodyState,
    input: &ControllerInput,
    ctx: &B,
    dt: Fixed,
) -> (output: ForceOutput)
    ensures
        old(controller).wf() ==> final(controller).wf(),
        exists|timer: Fixed|
            #![trigger may_find_ground(
                ctx,
                body.entity,
                body.cast_position,
                old(controller).gravity,
                &old(controller).ground_caster,
                old(controller).ground_cast.0,
                old(controller).viable_ground_cast.0,
                dt,
                timer,
                final(controller).ground_cast.0,
                final(controller).viable_ground_cast.0,
            )]
            {
                &&& may_find_ground(
                    ctx,
                    body.entity,
                    body.cast_position,
                    old(controller).gravity,
                    &old(controller).ground_caster,
                    old(controller).ground_cast.0,
                    old(controller).viable_ground_cast.0,
                    dt,
                    timer,
                    final(controller).ground_cast.0,
                    final(controller).viable_ground_cast.0,
                )
                &&& final(controller).ground_caster.skip_ground_check_timer == if jump_pushes(
                    old(controller).jump,
                    input.jumping,
                    final(controller).grounded.0,
                    dt,
                ) {
                    old(controller).jump.skip_ground_check_duration
                } else {
                    timer
                }
            },
        final(controller).ground_caster.skip_ground_check_override == old(
            controller,
        ).ground_caster.skip_ground_check_override,
        final(controller).ground_caster.cast_origin == old(controller).ground_caster.cast_origin,
        final(controller).ground_caster.cast_length == old(controller).ground_caster.cast_length,
        final(controller).ground_caster.exclude_from_ground == old(
            controller,
        ).ground_caster.exclude_from_ground,
        final(controller).ground_caster.unstable_ground_angle == old(
            controller,
        ).ground_caster.unstable_ground_angle,
        final(controller).ground_caster.max_ground_angle == old(
            controller,
        ).ground_caster.max_ground_angle,
        final(controller).gravity == old(controller).gravity,
        final(controller).movement == old(controller).movement,
        final(controller).float == old(controller).float,
        final(controller).upright == old(controller).upright,
        final(controller).force_settings == old(controller).force_settings,
        final(controller).grounded.0 == stands(
            body.translation,
            old(controller).gravity,
            old(controller).float,
            final(controller).viable_ground_cast,
            body.velocity.linear,
        ),
        final(controller).jump == old(controller).jump.stepped(
            input.jumping,
            final(controller).grounded.0,
            dt,
        ),
        final(controller).gravity_force.linear == if old(controller).jump.fires(
            input.jumping,
            final(controller).grounded.0,
            dt,
        ) {
            Vec3::spec_zero()
        } else {
            weight(old(controller).gravity, body.mass)
        },
        final(controller).jump_force.linear == jump_linear(
            old(controller).jump,
            input.jumping,
            final(controller).grounded.0,
            old(controller).gravity.up_vector,
            velocity_over_ground(body.velocity, final(controller).viable_ground_cast),
            body.mass.mass,
            dt,
        ),
        final(controller).float_force.linear == if jump_pushes(
            old(controller).jump,
            input.jumping,
            final(controller).grounded.0,
            dt,
        ) {
            Vec3::spec_zero()
        } else {
            match final(controller).viable_ground_cast.0.spec_current() {
                Some(ground) => float_linear(
                    body.translation,
                    old(controller).float,
                    ground,
                    body.velocity,
                    body.mass,
                    old(controller).gravity,
                ),
                None => Vec3::spec_zero(),
            }
        },
        final(controller).upright_force.angular == upright_angular(
            old(controller).upright,
            body.up,
            body.facing,
            old(controller).gravity,
            body.mass,
            body.velocity,
            final(controller).viable_ground_cast,
        ),
        exists|basis: (Vec3, Vec3)|
            #![trigger may_span(ctx, old(controller).gravity.up_vector, basis)]
            may_span(ctx, old(controller).gravity.up_vector, basis)
                && final(controller).movement_force.linear == movement_linear(
                old(controller).movement,
                old(controller).gravity,
                *input,
                final(controller).ground_cast,
                final(controller).viable_ground_cast,
                body.velocity,
                body.mass,
                basis,
                dt,
            ),
        final(controller).movement_force.angular == old(controller).movement_force.angular,
        output.force.linear == total_linear(
            final(controller).movement_force,
            final(controller).jump_force,
            final(controller).float_force,
            final(controller).gravity_force,
        ),
        output.force.angular == total_angular(
            final(controller).movement_force,
            final(controller).upright_force,
        ),
        output.ground_force == final(controller).ground_force,
        output.ground_force.linear == opposing_force(
            old(controller).force_settings,
            final(controller).movement_force,
            final(controller).jump_force,
            final(controller).float_force,
        ),
        match final(controller).viable_ground_cast.0.spec_current() {
            Some(ground) => exists|center_of_mass: Vec3|
                #![trigger may_center(ctx, ground.entity, center_of_mass)]
                may_center(ctx, ground.entity, center_of_mass) && output.ground_force.angular
                    == ground.cast.point.spec_minus(center_of_mass).spec_cross(
                    output.ground_force.linear,
                ),
            None => output.ground_force.angular == Vec3::spec_zero(),
        },
        output.ground == match final(controller).viable_ground_cast.0.spec_current() {
            Some(ground) => Some(ground.entity),
            None => None,
        },
{
    find_ground(
        body.entity,
        body.cast_position,
        &controller.gravity,
        &mut controller.ground_caster,
        &mut controller.ground_cast,
        &mut controller.viable_ground_cast,
        ctx,
        dt,
    );
    determine_groundedness(
        body.translation,
        &controller.gravity,
        &controller.float,
        &controller.viable_ground_cast,
        &body.velocity,
        &mut controller.grounded,
    );
    gravity_force(&mut controller.gravity_force, &controller.gravity, &body.mass);
    let ghost timer = controller.ground_caster.skip_ground_check_timer;
    let basis = ctx.orthonormal_pair(controller.gravity.up_vector);
    assert(may_span(ctx, controller.gravity.up_vector, basis));
    movement_force(
        &mut controller.movement_force,
        &controller.movement,
        &controller.gravity,
        input,
        &controller.ground_cast,
        &controller.viable_ground_cast,
        &body.velocity,
        &body.mass,
        basis,
        dt,
    );
    float_force(
        body.translation,
        &mut controller.float_force,
        &controller.float,
        &controller.viable_ground_cast,
        &body.velocity,
        &body.mass,
        &controller.gravity,
    );
    upright_force(
        &mut controller.upright_force,
        &controller.upright,
        body.up,
        body.facing,
        &controller.gravity,
        &body.mass,
        &body.velocity,
        &controller.viable_ground_cast,
    );
    jump_force(
        &mut controller.jump_force,
        &mut controller.float_force,
        &mut controller.gravity_force,
        &mut controller.jump,
        input,
        &mut controller.ground_caster,
        &controller.viable_ground_cast,
        &controller.grounded,
        &controller.gravity,
        &body.velocity,
        &body.mass,
        dt,
    );
    let (ground, ground_center_of_mass) = match controller.viable_ground_cast.0.current() {
        Some(found) => {
            let center_of_mass = ctx.center_of_mass(found.entity);
            assert(may_center(ctx, found.entity, center_of_mass));
            (Some(found.entity), center_of_mass)
        },
        None => (None, Vec3::zero()),
    };
    let mut force = ControllerForce::default();
    accumulate_forces(
        &controller.force_settings,
        &mut force,
        &mut controller.ground_force,
        &controller.float_force,
        &controller.upright_force,
        &controller.movement_force,
        &controller.jump_force,
        &controller.gravity_force,
        &controller.viable_ground_cast,
        ground_center_of_mass,
    );
    ForceOutput { force, ground_force: controller.ground_force, ground }
}

} // verus!
