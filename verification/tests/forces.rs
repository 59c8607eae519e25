use wanderlust::controller::gravity::{gravity_force, Gravity, GravityForce};
use wanderlust::controller::ground::{
    CastResult, Ground, GroundCache, GroundCaster, GroundForce, ViableGroundCast,
};
use wanderlust::controller::jump::JumpForce;
use wanderlust::controller::movement::MovementForce;
use wanderlust::controller::orientation::{upright_force, FloatForce, Upright, UprightForce};
use wanderlust::controller::{accumulate_forces, apply_ground_forces, Controller, ForceSettings};
use wanderlust::fixed::Fixed;
use wanderlust::physics::{
    apply_forces, ControllerForce, ControllerMass, ControllerVelocity, ExternalImpulse,
};
use wanderlust::query::Entity;
use wanderlust::spring::{Spring, SpringStrength};
use wanderlust::vec3::Vec3;

fn raw(value: i64) -> Fixed {
    Fixed::from_raw(value)
}

fn vec(x: i64, y: i64, z: i64) -> Vec3 {
    Vec3::new(raw(x), raw(y), raw(z))
}

fn mass(m: i64) -> ControllerMass {
    ControllerMass { mass: raw(m), inertia: Vec3::splat(raw(m)), local_center_of_mass: Vec3::zero() }
}

fn ground_at(point: Vec3) -> ViableGroundCast {
    let cast = CastResult { toi: raw(500_000), normal: vec(0, 1_000_000, 0), point, angle: raw(0) };
    let still = ControllerVelocity { linear: Vec3::zero(), angular: Vec3::zero() };
    ViableGroundCast(GroundCache::Ground(Ground::from_cast(
        Entity(9),
        cast,
        &GroundCaster::default(),
        still,
        Vec3::zero(),
    )))
}

struct Sum {
    force: ControllerForce,
    ground: GroundForce,
}

fn accumulate(settings: ForceSettings, viable: &ViableGroundCast, center: Vec3) -> Sum {
    let mut force = ControllerForce::default();
    let mut ground = GroundForce { linear: vec(7, 7, 7), angular: vec(7, 7, 7) };
    accumulate_forces(
        &settings,
        &mut force,
        &mut ground,
        &FloatForce { linear: vec(0, 14_400_000, 0) },
        &UprightForce { angular: vec(100, 0, -100) },
        &MovementForce { linear: vec(50_000_000, 0, 0), angular: vec(0, 5, 0) },
        &JumpForce { linear: vec(0, 30_000_000, 0) },
        &GravityForce { linear: vec(0, -9_817_000, 0) },
        viable,
        center,
    );
    Sum { force, ground }
}

#[test]
fn gravity_is_mass_times_acceleration_along_up() {
    let mut force = GravityForce::default();
    gravity_force(&mut force, &Gravity::default(), &mass(2_000_000));
    assert_eq!(force.linear, vec(0, -19_634_000, 0));
    let sideways = Gravity { acceleration: raw(-10_000_000), up_vector: vec(1_000_000, 0, 0) };
    gravity_force(&mut force, &sideways, &mass(500_000));
    assert_eq!(force.linear, vec(-5_000_000, 0, 0));
}

#[test]
fn gravity_checks_its_up_vector() {
    assert!(Gravity::default().valid());
    let long = Gravity { acceleration: raw(-1), up_vector: vec(0, 2_000_000, 0) };
    assert!(!long.valid());
    let none = Gravity { acceleration: raw(-1), up_vector: Vec3::zero() };
    assert!(!none.valid());
    let slanted = Gravity { acceleration: raw(-1), up_vector: vec(600_000, 800_000, 0) };
    assert!(slanted.valid());
    let nearly = Gravity { acceleration: raw(-1), up_vector: vec(0, 1_000_049, 0) };
    assert!(nearly.valid());
    let not_quite = Gravity { acceleration: raw(-1), up_vector: vec(0, 1_000_051, 0) };
    assert!(!not_quite.valid());
}

#[test]
fn the_forces_are_summed() {
    let sum = accumulate(ForceSettings::default(), &ViableGroundCast::default(), Vec3::zero());
    assert_eq!(sum.force.linear, vec(50_000_000, 34_583_000, 0));
    assert_eq!(sum.force.angular, vec(100, 5, -100));
}

#[test]
fn the_ground_gets_the_opposite_of_jump_and_float() {
    // By default the ground feels all of the push and none of the movement.
    let sum = accumulate(ForceSettings::default(), &ViableGroundCast::default(), Vec3::zero());
    assert_eq!(sum.ground.linear, vec(0, -44_400_000, 0));
    assert_eq!(sum.ground.angular, Vec3::zero());
}

#[test]
fn the_shares_scale_the_reaction() {
    let settings = ForceSettings {
        opposing_force_scale: raw(500_000),
        opposing_movement_force_scale: raw(1_000_000),
    };
    let sum = accumulate(settings, &ViableGroundCast::default(), Vec3::zero());
    assert_eq!(sum.ground.linear, vec(-50_000_000, -22_200_000, 0));
}

#[test]
fn shares_of_zero_leave_the_ground_alone() {
    let settings =
        ForceSettings { opposing_force_scale: raw(0), opposing_movement_force_scale: raw(0) };
    let sum = accumulate(settings, &ground_at(vec(1_000_000, 0, 0)), Vec3::zero());
    assert_eq!(sum.ground.linear, Vec3::zero());
    assert_eq!(sum.ground.angular, Vec3::zero());
    // The force on the controller itself is not touched by the shares.
    assert_eq!(sum.force.linear, vec(50_000_000, 34_583_000, 0));
}

#[test]
fn the_reaction_acts_at_the_point_of_contact() {
    // The contact lies 1 along x from the center of mass; pushing down there turns the
    // ground about z.
    let sum = accumulate(ForceSettings::default(), &ground_at(vec(3_000_000, 0, 0)), vec(2_000_000, 0, 0));
    assert_eq!(sum.ground.linear, vec(0, -44_400_000, 0));
    assert_eq!(sum.ground.angular, vec(0, 0, -44_400_000));
    // At the center of mass there is no lever.
    let centered = accumulate(ForceSettings::default(), &ground_at(vec(2_000_000, 0, 0)), vec(2_000_000, 0, 0));
    assert_eq!(centered.ground.angular, Vec3::zero());
}

#[test]
fn forces_become_impulses_over_the_tick() {
    let mut impulse = ExternalImpulse { impulse: vec(1_000_000, 0, 0), torque_impulse: Vec3::zero() };
    let force = ControllerForce { linear: vec(50_000_000, -10_000_000, 0), angular: vec(0, 0, 5_000_000) };
    apply_forces(&mut impulse, &force, raw(20_000));
    assert_eq!(impulse.impulse, vec(2_000_000, -200_000, 0));
    assert_eq!(impulse.torque_impulse, vec(0, 0, 100_000));
}

#[test]
fn ground_forces_are_applied_only_to_current_ground() {
    let force = GroundForce { linear: vec(0, -50_000_000, 0), angular: vec(10_000_000, 0, 0) };
    let mut impulse = ExternalImpulse::default();
    apply_ground_forces(&mut impulse, &force, &ViableGroundCast::default(), raw(20_000));
    assert_eq!(impulse, ExternalImpulse::default());
    apply_ground_forces(&mut impulse, &force, &ground_at(Vec3::zero()), raw(20_000));
    assert_eq!(impulse.impulse, vec(0, -1_000_000, 0));
    assert_eq!(impulse.torque_impulse, vec(200_000, 0, 0));
}

fn upright(body_up: Vec3, facing: Option<Vec3>, forward: Option<Vec3>, spin: Vec3) -> Vec3 {
    let mut force = UprightForce { angular: vec(3, 3, 3) };
    let upright = Upright {
        spring: Spring {
            strength: SpringStrength::StiffnessCoefficient(raw(100_000_000)),
            damping: raw(500_000),
        },
        forward_vector: forward,
        relative_to_ground: false,
    };
    upright_force(
        &mut force,
        &upright,
        body_up,
        facing,
        &Gravity::default(),
        &mass(4_000_000),
        &ControllerVelocity { linear: Vec3::zero(), angular: spin },
        &ViableGroundCast::default(),
    );
    force.angular
}

#[test]
fn riding_a_turning_platform_is_not_damped_where_the_spring_follows_the_ground() {
    let cast = CastResult {
        toi: raw(500_000),
        normal: vec(0, 1_000_000, 0),
        point: Vec3::zero(),
        angle: raw(0),
    };
    let turning = ControllerVelocity { linear: Vec3::zero(), angular: vec(0, 1_000_000, 0) };
    let ground = Ground::from_cast(Entity(9), cast, &GroundCaster::default(), turning, Vec3::zero());
    let viable = ViableGroundCast(GroundCache::Last(ground));
    let mut upright = Upright {
        spring: Spring {
            strength: SpringStrength::StiffnessCoefficient(raw(100_000_000)),
            damping: raw(500_000),
        },
        forward_vector: None,
        relative_to_ground: true,
    };
    let mut force = UprightForce::default();
    let spin = ControllerVelocity { linear: Vec3::zero(), angular: vec(0, 1_000_000, 0) };
    let up = vec(0, 1_000_000, 0);
    upright_force(&mut force, &upright, up, None, &Gravity::default(), &mass(4_000_000), &spin, &viable);
    assert_eq!(force.angular, Vec3::zero());
    upright.relative_to_ground = false;
    upright_force(&mut force, &upright, up, None, &Gravity::default(), &mass(4_000_000), &spin, &viable);
    assert_eq!(force.angular, vec(0, -20_000_000, 0));
}

#[test]
fn an_upright_body_at_rest_gets_no_torque() {
    assert_eq!(upright(vec(0, 1_000_000, 0), None, None, Vec3::zero()), Vec3::zero());
}

#[test]
fn a_tilted_body_is_turned_upright() {
    // The body leans toward +x; the cross product with up points along +z.
    let tilted = vec(600_000, 800_000, 0);
    assert_eq!(upright(tilted, None, None, Vec3::zero()), vec(0, 0, 60_000_000));
}

#[test]
fn turning_is_damped() {
    // Stiffness 100 on an inertia of 4: critical damping 40, half of it 20.
    assert_eq!(
        upright(vec(0, 1_000_000, 0), None, None, vec(0, 1_000_000, -2_000_000)),
        vec(0, -20_000_000, 40_000_000)
    );
}

#[test]
fn a_facing_that_is_asked_for_is_turned_to() {
    let forward = Some(vec(0, 0, 1_000_000));
    let turn = Some(vec(0, 500_000, 0));
    assert_eq!(upright(vec(0, 1_000_000, 0), turn, forward, Vec3::zero()), vec(0, 50_000_000, 0));
    // Without a facing to turn to, the measured turn is not used.
    assert_eq!(upright(vec(0, 1_000_000, 0), turn, None, Vec3::zero()), Vec3::zero());
    // Without a measured turn, the body is only set upright.
    assert_eq!(upright(vec(0, 1_000_000, 0), None, forward, Vec3::zero()), Vec3::zero());
}

#[test]
fn default_controller() {
    let controller = Controller::default();
    assert!(Gravity::default().valid());
    assert_eq!(controller.gravity, Gravity::default());
    assert_eq!(controller.ground_cast.0, GroundCache::Empty);
    assert_eq!(controller.viable_ground_cast.0, GroundCache::Empty);
    assert!(!controller.grounded.0);
    assert_eq!(controller.force_settings.opposing_force_scale, Fixed::one());
    assert_eq!(controller.force_settings.opposing_movement_force_scale, Fixed::zero());
    assert_eq!(controller.upright.forward_vector, None);
    assert_eq!(controller.upright.spring.damping, raw(500_000));
}
