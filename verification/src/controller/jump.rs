//! Jumping: buffered presses, coyote time, jumps in the air, and jumps of variable height.

use vstd::prelude::*;
use crate::controller::gravity::{Gravity, GravityForce};
use crate::controller::ground::{GroundCaster, Grounded, ViableGroundCast};
use crate::controller::input::ControllerInput;
use crate::controller::orientation::FloatForce;
use crate::fixed::{Fixed, SCALE, lemma_floor_sqrt_monotonic};
use crate::physics::{ControllerMass, ControllerVelocity};
use crate::vec3::Vec3;

verus! {

/// How the force of a jump that is held fades while the jump lasts.
#[derive(Clone, Copy, Debug, PartialEq, Eq, Structural)]
pub enum DecayCurve {
    /// The square root of what is left of the jump.
    SquareRoot,
    /// What is left of the jump.
    Linear,
}

/// How the controller jumps, and where in a jump it is.
#[derive(Clone, Copy, Debug, PartialEq, Eq, Structural)]
pub struct Jump {
    /// The force of the tick in which a jump starts.
    pub initial_force: Fixed,
    /// The force of each later tick of a jump that is held.
    pub force: Fixed,
    /// How long after a jump no other jump can start.
    pub cooldown_duration: Fixed,
    /// How much of the cooldown is left.
    pub cooldown_timer: Fixed,
    /// How long a jump that is held lasts.
    pub jump_duration: Fixed,
    /// How much of the jump is left.
    pub jump_timer: Fixed,
    /// How the force of a jump that is held fades; `None` for a force that does not fade.
    pub decay_function: Option<DecayCurve>,
    /// How many jumps can start in the air before the controller has to land again.
    pub jumps: u32,
    /// How many of them are left.
    pub remaining_jumps: u32,
    /// Whether the jump control was held down in the tick before.
    pub pressed_last_frame: bool,
    /// How much of the upward speed is braked away when the control is let go early.
    pub stop_force: Fixed,
    /// How much longer a press in the air is remembered.
    pub buffer_timer: Fixed,
    /// How long a press in the air is remembered.
    pub buffer_duration: Fixed,
    /// Whether the jumps in the air can only follow a jump from the ground.
    pub first_jump_grounded: bool,
    /// Whether a jump has started since the controller last stood ready on the ground.
    pub launched: bool,
    /// How long after leaving the ground the controller still jumps as if it stood on it.
    pub coyote_duration: Fixed,
    /// How much of that time is left.
    pub coyote_timer: Fixed,
    /// How long the ground is not looked for after a jump has started. While it is not looked
    /// for the controller counts as in the air, which is what lets a jump that is held be
    /// sustained from its start.
    pub skip_ground_check_duration: Fixed,
}

/// The force that makes the controller jump.
#[derive(Clone, Copy, Debug, PartialEq, Eq, Structural)]
pub struct JumpForce {
    /// The linear force.
    pub linear: Vec3,
}

impl Default for JumpForce {
    fn default() -> (force: Self)
        ensures
            force.linear == Vec3::zero(),
    {
        JumpForce { linear: Vec3::zero() }
    }
}

impl Default for Jump {
    fn default() -> (jump: Self)
        ensures
            jump.wf(),
            jump.initial_force.raw == 30_000_000,
            jump.force.raw == 20_000_000,
            jump.cooldown_duration.raw == 250_000,
            jump.cooldown_timer.raw == 0,
            jump.jump_duration.raw == 100_000,
            jump.jump_timer.raw == 0,
            jump.decay_function == Some(DecayCurve::SquareRoot),
            jump.stop_force.raw == 300_000,
            jump.buffer_duration.raw == 300_000,
            jump.buffer_timer.raw == 0,
            jump.first_jump_grounded,
            !jump.launched,
            jump.coyote_duration.raw == 200_000,
            jump.coyote_timer.raw == 0,
            jump.jumps == 1,
            jump.remaining_jumps == 1,
            !jump.pressed_last_frame,
            jump.skip_ground_check_duration.raw == 0,
    {
        Jump {
            initial_force: Fixed::from_raw(30_000_000),
            force: Fixed::from_raw(20_000_000),
            cooldown_duration: Fixed::from_raw(250_000),
            cooldown_timer: Fixed::zero(),
            jump_duration: Fixed::from_raw(100_000),
            jump_timer: Fixed::zero(),
            decay_function: Some(DecayCurve::SquareRoot),
            stop_force: Fixed::from_raw(300_000),
            buffer_duration: Fixed::from_raw(300_000),
            buffer_timer: Fixed::zero(),
            first_jump_grounded: true,
            launched: false,
            coyote_duration: Fixed::from_raw(200_000),
            coyote_timer: Fixed::zero(),
            jumps: 1,
            remaining_jumps: 1,
            pressed_last_frame: false,
            skip_ground_check_duration: Fixed::zero(),
        }
    }
}

impl Jump {
    /// No more jumps are left than the controller has, and no timer or duration is negative.
    pub open spec fn wf(&self) -> bool {
        &&& self.remaining_jumps <= self.jumps
        &&& self.cooldown_timer.raw >= 0
        &&& self.jump_timer.raw >= 0
        &&& self.buffer_timer.raw >= 0
        &&& self.coyote_timer.raw >= 0
        &&& self.cooldown_duration.raw >= 0
        &&& self.jump_duration.raw >= 0
        &&& self.buffer_duration.raw >= 0
        &&& self.coyote_duration.raw >= 0
        &&& self.skip_ground_check_duration.raw >= 0
    }

    /// The state after the four timers have run down by `dt`.
    pub open spec fn spec_tick_timers(self, dt: Fixed) -> Jump {
        Jump {
            cooldown_timer: self.cooldown_timer.spec_run_down(dt),
            jump_timer: self.jump_timer.spec_run_down(dt),
            buffer_timer: self.buffer_timer.spec_run_down(dt),
            coyote_timer: self.coyote_timer.spec_run_down(dt),
            ..self
        }
    }

    /// Whether a jump is under way.
    pub open spec fn spec_jumping(&self) -> bool {
        self.jump_timer.raw > 0
    }

    /// Whether a jump can start: the cooldown is over, and either the controller stands on
    /// the ground, or did so until a moment ago, or a jump in the air is left and allowed.
    pub open spec fn spec_can_jump(&self, grounded: bool) -> bool {
        let standing = grounded || self.coyote_timer.raw > 0;
        let in_air = self.remaining_jumps > 0 && (!self.first_jump_grounded || self.launched);
        self.cooldown_timer.raw <= 0 && (standing || in_air)
    }

    /// The state with every jump in the air given back and no jump under way.
    pub open spec fn spec_reset_jump(self) -> Jump {
        Jump { remaining_jumps: self.jumps, jump_timer: Fixed::spec_zero(), launched: false, ..self }
    }

    /// How far the jump has come, from zero at its start to one at its end.
    pub open spec fn spec_jump_progress(&self) -> Fixed {
        self.jump_duration.spec_minus(self.jump_timer).spec_over(self.jump_duration).spec_clamp(
            Fixed::spec_zero(),
            Fixed::spec_one(),
        )
    }

    /// The factor on the force of a jump that is held.
    pub open spec fn spec_decay_multiplier(&self) -> Fixed {
        match self.decay_function {
            Some(DecayCurve::SquareRoot) => Fixed::spec_one().spec_minus(
                self.spec_jump_progress(),
            ).spec_sqrt(),
            Some(DecayCurve::Linear) => Fixed::spec_one().spec_minus(self.spec_jump_progress()),
            None => Fixed::spec_one(),
        }
    }

    /// Whether the jump control went down in this tick.
    pub open spec fn rising_edge(&self, pressed: bool) -> bool {
        pressed && !self.pressed_last_frame
    }

    /// The state once the tick's time has passed, before anything is decided: the cooldown
    /// and the jump run down; on the ground the coyote time is wound up, and once the cooldown
    /// is over the jumps are given back; in the air the coyote time runs down; a press that
    /// begins in the air is remembered for the buffer duration, and the memory of an earlier
    /// one runs down.
    pub open spec fn settled(self, pressed: bool, grounded: bool, dt: Fixed) -> Jump {
        let cooled = Jump {
            cooldown_timer: self.cooldown_timer.spec_run_down(dt),
            jump_timer: self.jump_timer.spec_run_down(dt),
            coyote_timer: if grounded {
                self.coyote_duration
            } else {
                self.coyote_timer.spec_run_down(dt)
            },
            buffer_timer: if self.rising_edge(pressed) && !grounded {
                self.buffer_duration
            } else {
                self.buffer_timer.spec_run_down(dt)
            },
            ..self
        };
        if grounded && cooled.cooldown_timer.raw <= 0 {
            cooled.spec_reset_jump()
        } else {
            cooled
        }
    }

    /// Whether a jump starts in this tick: the control went down, or a press is remembered,
    /// and a jump can start.
    pub open spec fn fires(self, pressed: bool, grounded: bool, dt: Fixed) -> bool {
        let now = self.settled(pressed, grounded, dt);
        (self.rising_edge(pressed) || now.buffer_timer.raw > 0) && now.spec_can_jump(grounded)
    }

    /// Whether a jump that is under way goes on in this tick: none starts, the jump timer
    /// runs, and the controller is in the air.
    pub open spec fn sustains(self, pressed: bool, grounded: bool, dt: Fixed) -> bool {
        !self.fires(pressed, grounded, dt) && self.settled(pressed, grounded, dt).spec_jumping()
            && !grounded
    }

    /// The state after the tick.
    ///
    /// A jump that starts from the ground, or within the coyote time, uses up none of the
    /// jumps in the air; any other uses up one. Starting a jump ends the coyote time and
    /// forgets the press, and starts the cooldown and the jump timer. A jump that is under
    /// way ends when the control is let go.
    pub open spec fn stepped(self, pressed: bool, grounded: bool, dt: Fixed) -> Jump {
        let now = self.settled(pressed, grounded, dt);
        if self.fires(pressed, grounded, dt) {
            let standing = grounded || now.coyote_timer.raw > 0;
            Jump {
                remaining_jumps: if standing {
                    now.remaining_jumps
                } else {
                    (now.remaining_jumps - 1) as u32
                },
                launched: true,
                coyote_timer: Fixed::spec_zero(),
                buffer_timer: Fixed::spec_zero(),
                cooldown_timer: now.cooldown_duration,
                jump_timer: now.jump_duration,
                pressed_last_frame: pressed,
                ..now
            }
        } else if self.sustains(pressed, grounded, dt) && !pressed {
            Jump { jump_timer: Fixed::spec_zero(), pressed_last_frame: pressed, ..now }
        } else {
            Jump { pressed_last_frame: pressed, ..now }
        }
    }

    /// Lets the four timers run down by `dt`.
    pub fn tick_timers(&mut self, dt: Fixed)
        ensures
            *final(self) == old(self).spec_tick_timers(dt),
    {
        self.cooldown_timer = self.cooldown_timer.run_down(dt);
        self.jump_timer = self.jump_timer.run_down(dt);
        self.buffer_timer = self.buffer_timer.run_down(dt);
        self.coyote_timer = self.coyote_timer.run_down(dt);
    }

    /// Whether a jump is under way.
    #[verifier::when_used_as_spec(spec_jumping)]
    pub fn jumping(&self) -> (jumping: bool)
        ensures
            jumping == self.spec_jumping(),
    {
        self.jump_timer.raw > 0
    }

    /// Whether a jump can start: the cooldown is over, and either the controller stands on
    /// the ground, or did so until a moment ago, or a jump in the air is left and allowed.
    #[verifier::when_used_as_spec(spec_can_jump)]
    pub fn can_jump(&self, grounded: bool) -> (can: bool)
        ensures
            can == self.spec_can_jump(grounded),
    {
        let standing = grounded || self.coyote_timer.raw > 0;
        let in_air = self.remaining_jumps > 0 && (!self.first_jump_grounded || self.launched);
        self.cooldown_timer.raw <= 0 && (standing || in_air)
    }

    /// Gives back every jump in the air and ends the jump that is under way.
    pub fn reset_jump(&mut self)
        ensures
            *final(self) == old(self).spec_reset_jump(),
    {
        self.remaining_jumps = self.jumps;
        self.jump_timer = Fixed::zero();
        self.launched = false;
    }

    /// How far the jump has come, from zero at its start to one at its end.
    #[verifier::when_used_as_spec(spec_jump_progress)]
    pub fn jump_progress(&self) -> (progress: Fixed)
        ensures
            progress == self.spec_jump_progress(),
            0 <= progress.raw <= SCALE,
    {
        self.jump_duration.minus(self.jump_timer).over(self.jump_duration).clamp(
            Fixed::zero(),
            Fixed::one(),
        )
    }

    /// The factor on the force of a jump that is held.
    #[verifier::when_used_as_spec(spec_decay_multiplier)]
    pub fn decay_multiplier(&self) -> (multiplier: Fixed)
        ensures
            multiplier == self.spec_decay_multiplier(),
    {
        match self.decay_function {
            Some(DecayCurve::SquareRoot) => Fixed::one().minus(self.jump_progress()).sqrt(),
            Some(DecayCurve::Linear) => Fixed::one().minus(self.jump_progress()),
            None => Fixed::one(),
        }
    }
}

/// The velocity of the controller relative to the viable ground that was found last.
pub open spec fn velocity_over_ground(
    velocity: ControllerVelocity,
    viable_ground: ViableGroundCast,
) -> Vec3 {
    match viable_ground.0.spec_last() {
        Some(found) => velocity.linear.spec_minus(found.point_velocity),
        None => velocity.linear,
    }
}

/// The force of the tick in which a jump starts: along the up vector, what stops the
/// controller's motion along that vector within the tick, and the initial force on top.
pub open spec fn launch_force(
    jump: Jump,
    up_vector: Vec3,
    relative_velocity: Vec3,
    mass: Fixed,
    dt: Fixed,
) -> Vec3 {
    up_vector.spec_scale(relative_velocity.spec_dot(up_vector).spec_neg()).spec_scale(
        mass,
    ).spec_shrink(dt).spec_plus(up_vector.spec_scale(jump.initial_force))
}

/// The force that brakes a jump whose control was let go: against the motion along the up
/// vector, in proportion to it.
pub open spec fn brake_force(jump: Jump, up_vector: Vec3, relative_velocity: Vec3) -> Vec3 {
    relative_velocity.spec_project_onto(up_vector).spec_scale(jump.stop_force.spec_neg())
}

/// The force of a later tick of a jump that is held, where `jump` is the state once the
/// tick's time has passed.
pub open spec fn sustain_force(jump: Jump, up_vector: Vec3) -> Vec3 {
    up_vector.spec_scale(jump.force).spec_scale(jump.spec_decay_multiplier())
}

/// The force of jumping for the tick that leads from the state `jump`: the launch force where
/// a jump starts; where one is under way in the air, the sustain force while the control is
/// held and the brake force once it is let go; and else none.
pub open spec fn jump_linear(
    jump: Jump,
    pressed: bool,
    grounded: bool,
    up_vector: Vec3,
    relative_velocity: Vec3,
    mass: Fixed,
    dt: Fixed,
) -> Vec3 {
    if jump.fires(pressed, grounded, dt) {
        launch_force(jump, up_vector, relative_velocity, mass, dt)
    } else if jump.sustains(pressed, grounded, dt) {
        if pressed {
            sustain_force(jump.settled(pressed, grounded, dt), up_vector)
        } else {
            brake_force(jump, up_vector, relative_velocity)
        }
    } else {
        Vec3::spec_zero()
    }
}

/// Whether the tick that leads from the state `jump` pushes the controller up: a jump starts,
/// or one is under way in the air and the control is held. Such a tick has no float force,
/// and keeps the ground from being looked for during the skip duration.
pub open spec fn jump_pushes(jump: Jump, pressed: bool, grounded: bool, dt: Fixed) -> bool {
    jump.fires(pressed, grounded, dt) || (jump.sustains(pressed, grounded, dt) && pressed)
}

/// Works out the force of jumping for one tick, and moves the jump on by that tick.
///
/// A jump starts when the control goes down, or a press is remembered, and a jump can start.
/// The tick in which it starts gets the launch force, and no gravity and no float force;
/// the ground is then not looked for during the skip duration. While a jump is under way in
/// the air, each tick gets the sustain force and no float force as long as the control is
/// held; once it is let go, one tick gets the brake force and the jump ends. Every other
/// tick gets no force.
pub fn jump_force(
    force: &mut JumpForce,
    float_force: &mut FloatForce,
    gravity_force: &mut GravityForce,
    jumping: &mut Jump,
    input: &ControllerInput,
    ground_caster: &mut GroundCaster,
    viable_ground: &ViableGroundCast,
    grounded: &Grounded,
    gravity: &Gravity,
    velocity: &ControllerVelocity,
    mass: &ControllerMass,
    dt: Fixed,
)
    ensures
        *final(jumping) == old(jumping).stepped(input.jumping, grounded.0, dt),
        old(jumping).wf() ==> final(jumping).wf(),
        old(jumping).wf() && old(ground_caster).wf() ==> final(ground_caster).wf(),
        final(ground_caster).skip_ground_check_override
            == old(ground_caster).skip_ground_check_override,
        final(ground_caster).cast_origin == old(ground_caster).cast_origin,
        final(ground_caster).cast_length == old(ground_caster).cast_length,
        final(ground_caster).exclude_from_ground == old(ground_caster).exclude_from_ground,
        final(ground_caster).unstable_ground_angle == old(ground_caster).unstable_ground_angle,
        final(ground_caster).max_ground_angle == old(ground_caster).max_ground_angle,
        final(force).linear == jump_linear(
            *old(jumping),
            input.jumping,
            grounded.0,
            gravity.up_vector,
            velocity_over_ground(*velocity, *viable_ground),
            mass.mass,
            dt,
        ),
        final(float_force).linear == if jump_pushes(
            *old(jumping),
            input.jumping,
            grounded.0,
            dt,
        ) {
            Vec3::spec_zero()
        } else {
            old(float_force).linear
        },
        final(gravity_force).linear == if old(jumping).fires(input.jumping, grounded.0, dt) {
            Vec3::spec_zero()
        } else {
            old(gravity_force).linear
        },
        final(ground_caster).skip_ground_check_timer == if jump_pushes(
            *old(jumping),
            input.jumping,
            grounded.0,
            dt,
        ) {
            old(jumping).skip_ground_check_duration
        } else {
            old(ground_caster).skip_ground_check_timer
        },
{
    force.linear = Vec3::zero();

    let on_ground = grounded.0;
    let pressed = input.jumping;
    let jump_inputted = pressed && !jumping.pressed_last_frame;

    jumping.cooldown_timer = jumping.cooldown_timer.run_down(dt);
    jumping.jump_timer = jumping.jump_timer.run_down(dt);
    if on_ground {
        jumping.coyote_timer = jumping.coyote_duration;
    } else {
        jumping.coyote_timer = jumping.coyote_timer.run_down(dt);
    }
    if jump_inputted && !on_ground {
        jumping.buffer_timer = jumping.buffer_duration;
    } else {
        jumping.buffer_timer = jumping.buffer_timer.run_down(dt);
    }
    if on_ground && jumping.cooldown_timer.raw <= 0 {
        jumping.reset_jump();
    }
    assert(*jumping == old(jumping).settled(pressed, on_ground, dt));

    let relative_velocity = match viable_ground.0.last() {
        Some(found) => velocity.linear.minus(found.point_velocity),
        None => velocity.linear,
    };

    let just_jumped = jump_inputted || jumping.buffer_timer.raw > 0;

    if just_jumped && jumping.can_jump(on_ground) {
        // Stopping the motion along the up vector first makes a jump out of a fall as high
        // as one from rest, and keeps jumps from stacking.
        let up_speed = relative_velocity.dot(gravity.up_vector);
        let negate_up_velocity = gravity.up_vector.scale(up_speed.neg()).scale(mass.mass).shrink(
            dt,
        );
        let initial_jump_force = gravity.up_vector.scale(jumping.initial_force);
        force.linear = negate_up_velocity.plus(initial_jump_force);

        gravity_force.linear = Vec3::zero();
        float_force.linear = Vec3::zero();

        let standing = on_ground || jumping.coyote_timer.raw > 0;
        if !standing {
            jumping.remaining_jumps = jumping.remaining_jumps - 1;
        }
        jumping.launched = true;
        jumping.coyote_timer = Fixed::zero();
        jumping.buffer_timer = Fixed::zero();
        jumping.cooldown_timer = jumping.cooldown_duration;
        jumping.jump_timer = jumping.jump_duration;
        ground_caster.skip_ground_check_timer = jumping.skip_ground_check_duration;
    } else if jumping.jumping() && !on_ground {
        if !pressed {
            // Letting go of the control cuts the jump short.
            force.linear = relative_velocity.project_onto(gravity.up_vector).scale(
                jumping.stop_force.neg(),
            );
            jumping.jump_timer = Fixed::zero();
        } else {
            ground_caster.skip_ground_check_timer = jumping.skip_ground_check_duration;
            force.linear = gravity.up_vector.scale(jumping.force).scale(
                jumping.decay_multiplier(),
            );
            float_force.linear = Vec3::zero();
        }
    }

    jumping.pressed_last_frame = pressed;
}


/// A well-formed state stays well-formed.
pub proof fn law_step_keeps_well_formed(jump: Jump, pressed: bool, grounded: bool, dt: Fixed)
    requires
        jump.wf(),
    ensures
        jump.stepped(pressed, grounded, dt).wf(),
{
}

/// A jump from the ground uses up no jump in the air: where the control goes down while the
/// controller stands on the ground and the cooldown is over, a jump starts, and afterwards
/// every jump in the air is left.
pub proof fn law_grounded_jump_spends_no_charge(jump: Jump, dt: Fixed)
    requires
        jump.wf(),
        !jump.pressed_last_frame,
        jump.cooldown_timer.spec_run_down(dt).raw == 0,
    ensures
        jump.fires(true, true, dt),
        jump.stepped(true, true, dt).remaining_jumps == jump.jumps,
        jump.stepped(true, true, dt).launched,
        jump.stepped(true, true, dt).coyote_timer.raw == 0,
{
}

/// A jump in the air uses up one jump: where the coyote time is over, the cooldown is over, a
/// jump in the air is left and allowed, and the control goes down, a jump starts and one
/// jump fewer is left.
pub proof fn law_airborne_jump_spends_one_charge(jump: Jump, dt: Fixed)
    requires
        jump.wf(),
        !jump.pressed_last_frame,
        jump.cooldown_timer.spec_run_down(dt).raw == 0,
        jump.coyote_timer.spec_run_down(dt).raw == 0,
        jump.remaining_jumps > 0,
        !jump.first_jump_grounded || jump.launched,
    ensures
        jump.fires(true, false, dt),
        jump.stepped(true, false, dt).remaining_jumps == jump.remaining_jumps - 1,
{
}

/// Without a jump left no jump starts in the air: where the coyote time is over and no jump
/// in the air is left, no jump starts whatever the control does, and the same holds of the
/// state after the tick for as long as the controller stays in the air.
pub proof fn law_no_charge_no_jump(jump: Jump, pressed: bool, dt: Fixed)
    requires
        jump.wf(),
        jump.coyote_timer.raw == 0,
        jump.remaining_jumps == 0,
    ensures
        !jump.fires(pressed, false, dt),
        jump.stepped(pressed, false, dt).coyote_timer.raw == 0,
        jump.stepped(pressed, false, dt).remaining_jumps == 0,
{
}

/// With one jump in the air and no cooldown: a press on the ground starts a jump and leaves
/// the one jump; the next press, in the air, starts a jump and uses it up; the press after
/// that, still in the air, starts none.
pub proof fn law_single_charge_sequence(
    jump: Jump,
    dt1: Fixed,
    dt2: Fixed,
    dt3: Fixed,
    dt4: Fixed,
    dt5: Fixed,
)
    requires
        jump.wf(),
        jump.jumps == 1,
        jump.cooldown_duration.raw == 0,
        jump.cooldown_timer.raw == 0,
        !jump.pressed_last_frame,
    ensures
        ({
            let first = jump.stepped(true, true, dt1);
            let released = first.stepped(false, false, dt2);
            let second = released.stepped(true, false, dt3);
            let again = second.stepped(false, false, dt4);
            &&& jump.fires(true, true, dt1)
            &&& first.remaining_jumps == 1
            &&& !first.fires(false, false, dt2)
            &&& released.fires(true, false, dt3)
            &&& second.remaining_jumps == 0
            &&& !second.fires(false, false, dt4)
            &&& !again.fires(true, false, dt5)
        }),
{
    let first = jump.stepped(true, true, dt1);
    assert(jump.fires(true, true, dt1));
    assert(first.remaining_jumps == 1 && first.launched && first.coyote_timer.raw == 0
        && first.buffer_timer.raw == 0 && first.cooldown_timer.raw == 0 && first.wf());
    let released = first.stepped(false, false, dt2);
    assert(!first.fires(false, false, dt2));
    assert(released.remaining_jumps == 1 && released.launched && released.coyote_timer.raw == 0
        && released.cooldown_timer.raw == 0 && !released.pressed_last_frame && released.wf());
    let second = released.stepped(true, false, dt3);
    assert(released.fires(true, false, dt3));
    assert(second.remaining_jumps == 0 && second.coyote_timer.raw == 0 && second.wf());
    law_no_charge_no_jump(second, false, dt4);
    let again = second.stepped(false, false, dt4);
    assert(again.wf());
    law_no_charge_no_jump(again, true, dt5);
}

/// Within the coyote time a jump starts as if the controller still stood on the ground: where
/// the controller has left the ground with every jump in the air left, the coyote time is
/// not over and the cooldown is, a press starts a jump, and the state after it is the one
/// that the same press on the ground would have led to.
pub proof fn law_coyote_jump_as_if_grounded(jump: Jump, dt: Fixed)
    requires
        jump.wf(),
        !jump.pressed_last_frame,
        jump.cooldown_timer.spec_run_down(dt).raw == 0,
        jump.coyote_timer.spec_run_down(dt).raw > 0,
        jump.remaining_jumps == jump.jumps,
    ensures
        jump.fires(true, false, dt),
        jump.fires(true, true, dt),
        jump.stepped(true, false, dt) == jump.stepped(true, true, dt),
        jump.stepped(true, false, dt).remaining_jumps == jump.jumps,
{
}

/// A press that is remembered starts a jump on landing: where the memory of a press has not
/// run out by the tick in which the controller stands on the ground again, and the cooldown
/// is over, a jump starts in that tick, whether or not the control is still held.
pub proof fn law_buffered_press_fires_on_landing(jump: Jump, pressed: bool, dt: Fixed)
    requires
        jump.wf(),
        jump.buffer_timer.spec_run_down(dt).raw > 0,
        jump.cooldown_timer.spec_run_down(dt).raw == 0,
    ensures
        jump.fires(pressed, true, dt),
{
}

/// A press in the air that starts no jump is remembered for the buffer duration.
pub proof fn law_press_in_air_is_remembered(jump: Jump, dt: Fixed)
    requires
        !jump.pressed_last_frame,
        !jump.fires(true, false, dt),
    ensures
        jump.stepped(true, false, dt).buffer_timer == jump.buffer_duration,
{
}

/// While no jump starts and no new press begins, the memory of a press runs down by the
/// length of the tick and by no more.
pub proof fn law_memory_runs_down(jump: Jump, pressed: bool, grounded: bool, dt: Fixed)
    requires
        !jump.rising_edge(pressed),
        !jump.fires(pressed, grounded, dt),
    ensures
        jump.stepped(pressed, grounded, dt).buffer_timer == jump.buffer_timer.spec_run_down(dt),
{
}


/// The time that the ticks of `dts` take, in raw units.
pub open spec fn total_time(dts: Seq<Fixed>) -> int
    decreases dts.len(),
{
    if dts.len() == 0 {
        0
    } else {
        total_time(dts.drop_last()) + dts.last().raw
    }
}

/// The state after the controller has spent the ticks of `dts` in the air, with the jump
/// control held as `presses` says.
pub open spec fn flown(jump: Jump, presses: Seq<bool>, dts: Seq<Fixed>) -> Jump
    decreases dts.len(),
{
    if dts.len() == 0 {
        jump
    } else {
        flown(jump, presses.drop_last(), dts.drop_last()).stepped(
            presses.last(),
            false,
            dts.last(),
        )
    }
}

/// Whether no jump starts while the controller spends the ticks of `dts` in the air.
pub open spec fn flies_without_jump(jump: Jump, presses: Seq<bool>, dts: Seq<Fixed>) -> bool
    decreases dts.len(),
{
    dts.len() == 0 || (flies_without_jump(jump, presses.drop_last(), dts.drop_last()) && !flown(
        jump,
        presses.drop_last(),
        dts.drop_last(),
    ).fires(presses.last(), false, dts.last()))
}

/// While no jump starts in the air, the memory of a press loses no more than the time that
/// has passed.
pub proof fn lemma_memory_outlasts_flight(jump: Jump, presses: Seq<bool>, dts: Seq<Fixed>)
    requires
        jump.wf(),
        jump.buffer_timer.raw <= jump.buffer_duration.raw,
        presses.len() == dts.len(),
        forall|i: int| 0 <= i < dts.len() ==> (#[trigger] dts[i]).raw >= 0,
        flies_without_jump(jump, presses, dts),
    ensures
        flown(jump, presses, dts).wf(),
        flown(jump, presses, dts).buffer_duration == jump.buffer_duration,
        flown(jump, presses, dts).buffer_timer.raw <= jump.buffer_duration.raw,
        flown(jump, presses, dts).buffer_timer.raw >= jump.buffer_timer.raw - total_time(dts),
        total_time(dts) >= 0,
    decreases dts.len(),
{
    if dts.len() > 0 {
        let earlier_presses = presses.drop_last();
        let earlier = dts.drop_last();
        assert forall|i: int| 0 <= i < earlier.len() implies (#[trigger] earlier[i]).raw >= 0 by {
            assert(earlier[i] == dts[i]);
        }
        lemma_memory_outlasts_flight(jump, earlier_presses, earlier);
        let before = flown(jump, earlier_presses, earlier);
        let dt = dts.last();
        assert(dt == dts[dts.len() - 1]);
        assert(dt.raw >= 0);
        law_step_keeps_well_formed(before, presses.last(), false, dt);
        let after = before.stepped(presses.last(), false, dt);
        assert(after == flown(jump, presses, dts));
        assert(!before.fires(presses.last(), false, dt));
        assert(after.buffer_timer == before.settled(presses.last(), false, dt).buffer_timer);
        assert(after.buffer_timer.raw >= before.buffer_timer.raw - dt.raw);
        assert(total_time(dts) == total_time(earlier) + dt.raw);
    }
}

/// A press in the air starts a jump on landing if the landing comes soon enough: where a
/// press has just been remembered, no jump starts during the ticks that the controller then
/// spends in the air, those ticks and the tick of the landing together take less than the
/// buffer duration, and the cooldown is over by then, a jump starts in the tick of the
/// landing, whether or not the control is still held.
pub proof fn law_press_before_landing_fires(
    jump: Jump,
    presses: Seq<bool>,
    dts: Seq<Fixed>,
    pressed_on_landing: bool,
    dt_landing: Fixed,
)
    requires
        jump.wf(),
        jump.buffer_timer == jump.buffer_duration,
        presses.len() == dts.len(),
        forall|i: int| 0 <= i < dts.len() ==> (#[trigger] dts[i]).raw >= 0,
        dt_landing.raw >= 0,
        flies_without_jump(jump, presses, dts),
        total_time(dts) + dt_landing.raw < jump.buffer_duration.raw,
        flown(jump, presses, dts).cooldown_timer.spec_run_down(dt_landing).raw == 0,
    ensures
        flown(jump, presses, dts).fires(pressed_on_landing, true, dt_landing),
{
    lemma_memory_outlasts_flight(jump, presses, dts);
    law_buffered_press_fires_on_landing(flown(jump, presses, dts), pressed_on_landing, dt_landing);
}

/// The force of a jump that is held never grows while the jump lasts: of two states with the
/// same curve, the one that is further into its jump has the smaller factor, or the same.
pub proof fn law_decay_never_grows(earlier: Jump, later: Jump)
    requires
        earlier.decay_function == later.decay_function,
        earlier.spec_jump_progress().raw <= later.spec_jump_progress().raw,
    ensures
        later.spec_decay_multiplier().raw <= earlier.spec_decay_multiplier().raw,
        0 <= later.spec_decay_multiplier().raw <= SCALE,
{
    let a: int = Fixed::spec_one().spec_minus(earlier.spec_jump_progress()).raw as int;
    let b: int = Fixed::spec_one().spec_minus(later.spec_jump_progress()).raw as int;
    assert(0 <= b <= a <= SCALE);
    lemma_floor_sqrt_monotonic(b * SCALE, a * SCALE);
    lemma_floor_sqrt_monotonic(0, a * SCALE);
    lemma_floor_sqrt_monotonic(a * SCALE, SCALE * SCALE);
    lemma_floor_sqrt_monotonic(0, b * SCALE);
    lemma_floor_sqrt_monotonic(b * SCALE, SCALE * SCALE);
    assert(crate::fixed::is_floor_sqrt(SCALE as int, SCALE * SCALE));
    crate::fixed::lemma_floor_sqrt(SCALE * SCALE);
    crate::fixed::lemma_floor_sqrt_unique(
        SCALE as int,
        crate::fixed::floor_sqrt(SCALE * SCALE),
        SCALE * SCALE,
    );
}

} // verus!
