use wanderlust::controller::gravity::Gravity;
use wanderlust::controller::ground::{
    CastResult, Ground, GroundCache, GroundCaster, ViableGroundCast,
};
use wanderlust::controller::orientation::{float_force, Float, FloatForce};
use wanderlust::fixed::Fixed;
use wanderlust::physics::{ControllerMass, ControllerVelocity};
use wanderlust::query::Entity;
use wanderlust::vec3::Vec3;

fn raw(value: i64) -> Fixed {
    Fixed::from_raw(value)
}

fn vec(x: i64, y: i64, z: i64) -> Vec3 {
    Vec3::new(raw(x), raw(y), raw(z))
}

fn flat_ground(point_velocity: Vec3) -> ViableGroundCast {
    let cast = CastResult {
        toi: raw(500_000),
        normal: vec(0, 1_000_000, 0),
        point: Vec3::zero(),
        angle: raw(0),
    };
    let velocity = ControllerVelocity { linear: point_velocity, angular: Vec3::zero() };
    ViableGroundCast(GroundCache::Ground(Ground::from_cast(
        Entity(1),
        cast,
        &GroundCaster::default(),
        velocity,
        Vec3::zero(),
    )))
}

fn force_at(height: i64, velocity: Vec3, mass: i64, ground: &ViableGroundCast) -> Vec3 {
    let mut force = FloatForce { linear: vec(1, 2, 3) };
    float_force(
        vec(0, height, 0),
        &mut force,
        &Float::default(),
        ground,
        &ControllerVelocity { linear: velocity, angular: Vec3::zero() },
        &ControllerMass {
            mass: raw(mass),
            inertia: Vec3::splat(raw(mass)),
            local_center_of_mass: Vec3::zero(),
        },
        &Gravity::default(),
    );
    force.linear
}

#[test]
fn no_force_at_the_float_distance_at_rest() {
    let ground = flat_ground(Vec3::zero());
    assert_eq!(force_at(550_000, Vec3::zero(), 1_000_000, &ground), Vec3::zero());
    assert_eq!(force_at(550_000, Vec3::zero(), 80_000_000, &ground), Vec3::zero());
    // Sideways motion does not load the spring either.
    assert_eq!(force_at(550_000, vec(3_000_000, 0, -2_000_000), 1_000_000, &ground), Vec3::zero());
}

#[test]
fn no_force_in_the_air() {
    assert_eq!(
        force_at(450_000, vec(0, -1_000_000, 0), 1_000_000, &ViableGroundCast::default()),
        Vec3::zero()
    );
    let archived = match flat_ground(Vec3::zero()).0 {
        GroundCache::Ground(ground) => ViableGroundCast(GroundCache::Last(ground)),
        _ => unreachable!(),
    };
    assert_eq!(force_at(450_000, vec(0, -1_000_000, 0), 1_000_000, &archived), Vec3::zero());
}

#[test]
fn below_the_float_distance_the_spring_pushes_up() {
    let ground = flat_ground(Vec3::zero());
    // Stiffness 144 on a mass of 1, 0.1 below the float distance: 14.4 upward.
    assert_eq!(
        force_at(450_000, Vec3::zero(), 1_000_000, &ground),
        vec(0, 14_400_000, 0)
    );
    // A mass of 2 falling at 1: stiffness 288 times 0.1, plus damping 38.4 times 1.
    assert_eq!(
        force_at(450_000, vec(0, -1_000_000, 0), 2_000_000, &ground),
        vec(0, 67_200_000, 0)
    );
}

#[test]
fn above_the_float_distance_the_spring_pulls_down() {
    let ground = flat_ground(Vec3::zero());
    // 0.2 above the float distance, rising at 0.5: -28.8 from the spring, -9.6 from damping.
    assert_eq!(
        force_at(750_000, vec(0, 500_000, 0), 1_000_000, &ground),
        vec(0, -38_400_000, 0)
    );
}

#[test]
fn a_body_that_rises_fast_is_braked_even_below_the_float_distance() {
    let ground = flat_ground(Vec3::zero());
    assert_eq!(
        force_at(450_000, vec(0, 3_000_000, 0), 1_000_000, &ground),
        vec(0, -43_200_000, 0)
    );
}

#[test]
fn only_the_speed_relative_to_the_ground_is_damped() {
    // The platform rises at 2, and so does the body: the damping has nothing to do.
    let platform = flat_ground(vec(0, 2_000_000, 0));
    assert_eq!(
        force_at(450_000, vec(0, 2_000_000, 0), 1_000_000, &platform),
        vec(0, 14_400_000, 0)
    );
}

#[test]
fn default_float() {
    let float = Float::default();
    assert_eq!(float.distance, raw(550_000));
    assert_eq!(float.min_offset, raw(-550_000));
    assert_eq!(float.max_offset, raw(100_000));
    assert_eq!(float.spring.damping, raw(800_000));
}
