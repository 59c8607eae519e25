use wanderlust::controller::gravity::Gravity;
use wanderlust::controller::ground::{
    determine_groundedness, settle_ground, CastResult, Ground, GroundCache, GroundCast,
    GroundCaster, Grounded, ViableGroundCast,
};
use wanderlust::controller::orientation::Float;
use wanderlust::fixed::Fixed;
use wanderlust::physics::ControllerVelocity;
use wanderlust::query::{Entity, RayCastResult, ShapeCastResult};
use wanderlust::vec3::Vec3;

fn raw(value: i64) -> Fixed {
    Fixed::from_raw(value)
}

fn vec(x: i64, y: i64, z: i64) -> Vec3 {
    Vec3::new(raw(x), raw(y), raw(z))
}

fn up() -> Vec3 {
    vec(0, 1_000_000, 0)
}

fn cast_at(angle: i64) -> CastResult {
    CastResult { toi: raw(500_000), normal: up(), point: Vec3::zero(), angle: raw(angle) }
}

fn still() -> ControllerVelocity {
    ControllerVelocity { linear: Vec3::zero(), angular: Vec3::zero() }
}

fn ground_at(angle: i64) -> Ground {
    Ground::from_cast(Entity(7), cast_at(angle), &GroundCaster::default(), still(), Vec3::zero())
}

fn grounded_with(translation: Vec3, velocity: Vec3, viable: &ViableGroundCast) -> bool {
    let mut grounded = Grounded(true);
    determine_groundedness(
        translation,
        &Gravity::default(),
        &Float::default(),
        viable,
        &ControllerVelocity { linear: velocity, angular: Vec3::zero() },
        &mut grounded,
    );
    grounded.0
}

#[test]
fn default_caster_casts_and_orders_its_thresholds() {
    let caster = GroundCaster::default();
    assert!(caster.casting());
    assert_eq!(caster.cast_length, raw(1_050_000));
    assert!(caster.unstable_ground_angle.raw <= caster.max_ground_angle.raw);
    assert!(!caster.exclude_from_ground.contains(Entity(7)));
}

#[test]
fn flat_ground_is_stable_and_viable() {
    let ground = ground_at(0);
    assert!(ground.viable);
    assert!(ground.stable);
    assert_eq!(ground.entity, Entity(7));
    assert_eq!(ground.cast, cast_at(0));
}

#[test]
fn a_slope_between_the_thresholds_is_viable_but_not_stable() {
    let ground = ground_at(900_000);
    assert!(ground.viable);
    assert!(!ground.stable);
}

#[test]
fn a_slope_steeper_than_the_viability_threshold_is_not_viable() {
    let ground = ground_at(1_200_000);
    assert!(!ground.viable);
    assert!(!ground.stable);
}

#[test]
fn the_thresholds_themselves_are_still_inside() {
    assert!(ground_at(1_047_198).viable);
    assert!(!ground_at(1_047_199).viable);
    assert!(ground_at(785_398).stable);
    assert!(!ground_at(785_399).stable);
    assert!(ground_at(785_399).viable);
}

#[test]
fn viability_falls_away_as_the_angle_grows() {
    let mut was_viable = true;
    let mut was_stable = true;
    let mut angle = 0;
    while angle <= 3_141_593 {
        let ground = ground_at(angle);
        // Stability needs viability, and neither comes back once it is lost.
        assert!(!ground.stable || ground.viable);
        assert!(was_viable || !ground.viable);
        assert!(was_stable || !ground.stable);
        assert_eq!(ground.viable, angle <= 1_047_198);
        was_viable = ground.viable;
        was_stable = ground.stable;
        angle += 10_471;
    }
}

#[test]
fn the_sign_of_the_angle_does_not_matter() {
    assert!(ground_at(-900_000).viable);
    assert!(!ground_at(-900_000).stable);
    assert!(!ground_at(-1_200_000).viable);
}

#[test]
fn a_surface_without_a_normal_is_no_ground() {
    let cast = CastResult { toi: raw(1), normal: Vec3::zero(), point: Vec3::zero(), angle: raw(0) };
    let ground = Ground::from_cast(Entity(1), cast, &GroundCaster::default(), still(), Vec3::zero());
    assert!(!ground.viable);
    assert!(!ground.stable);
}

#[test]
fn point_velocity_adds_the_turning_of_the_ground() {
    let cast = CastResult {
        toi: raw(500_000),
        normal: up(),
        point: vec(3_000_000, 0, 0),
        angle: raw(0),
    };
    let velocity = ControllerVelocity {
        linear: vec(1_000_000, 0, 0),
        angular: vec(0, 2_000_000, 0),
    };
    let ground = Ground::from_cast(
        Entity(1),
        cast,
        &GroundCaster::default(),
        velocity,
        vec(1_000_000, 0, 0),
    );
    assert_eq!(ground.linear_velocity, vec(1_000_000, 0, 0));
    assert_eq!(ground.angular_velocity, vec(0, 2_000_000, 0));
    assert_eq!(ground.point_velocity, vec(1_000_000, 0, -4_000_000));
}

#[test]
fn cast_results_from_engine_answers() {
    let hit = ShapeCastResult {
        entity: Entity(3),
        toi: raw(250_000),
        normal1: vec(0, -1_000_000, 0),
        normal2: vec(0, 1_000_000, 0),
        point1: vec(0, 10, 0),
        point2: vec(0, 20, 0),
        penetrating: false,
    };
    let first = CastResult::from_toi1(hit).unwrap();
    assert_eq!(first.toi, raw(250_000));
    assert_eq!(first.normal, vec(0, -1_000_000, 0));
    assert_eq!(first.point, vec(0, 10, 0));
    let second = CastResult::from_toi2(hit).unwrap();
    assert_eq!(second.normal, vec(0, 1_000_000, 0));
    assert_eq!(second.point, vec(0, 20, 0));
    let overlapping = ShapeCastResult { penetrating: true, ..hit };
    assert!(CastResult::from_toi1(overlapping).is_none());
    assert!(CastResult::from_toi2(overlapping).is_none());

    let ray = RayCastResult {
        entity: Entity(4),
        toi: raw(100),
        normal: vec(1_000_000, 0, 0),
        point: vec(1, 2, 3),
    };
    let cast = CastResult::from_ray(ray);
    assert_eq!(cast.toi, raw(100));
    assert_eq!(cast.normal, vec(1_000_000, 0, 0));
    assert_eq!(cast.point, vec(1, 2, 3));
    assert_eq!(cast.angle, raw(0));
}

#[test]
fn the_down_tangent_leads_downhill() {
    // A slope that rises toward -x: its normal leans toward +x, and downhill is +x.
    let cast = CastResult {
        toi: raw(1),
        normal: vec(939_693, 342_020, 0),
        point: Vec3::zero(),
        angle: raw(1_221_730),
    };
    assert_eq!(cast.down_tangent(up()), vec(321_393, -883_023, 0));
    assert_eq!(cast_at(0).down_tangent(up()), Vec3::zero());
}

#[test]
fn the_cache_starts_empty() {
    let cache = GroundCache::default();
    assert!(cache.current().is_none());
    assert!(cache.last().is_none());
    assert!(!cache.grounded());
    assert!(GroundCast::default().0.current().is_none());
    assert!(ViableGroundCast::default().0.last().is_none());
}

#[test]
fn found_ground_becomes_current() {
    let mut cache = GroundCache::Empty;
    cache.update(Some(ground_at(0)));
    assert_eq!(cache, GroundCache::Ground(ground_at(0)));
    assert_eq!(cache.current(), Some(&ground_at(0)));
    assert_eq!(cache.last(), Some(&ground_at(0)));
    assert!(cache.grounded());
    cache.update(Some(ground_at(900_000)));
    assert_eq!(cache.current(), Some(&ground_at(900_000)));
}

#[test]
fn a_miss_archives_the_current_ground() {
    let mut cache = GroundCache::Ground(ground_at(0));
    cache.update(None);
    assert_eq!(cache, GroundCache::Last(ground_at(0)));
    assert!(cache.current().is_none());
    assert_eq!(cache.last(), Some(&ground_at(0)));
    assert!(!cache.grounded());
    // The last ground stays through further misses.
    cache.update(None);
    assert_eq!(cache, GroundCache::Last(ground_at(0)));
    cache.into_last();
    assert_eq!(cache, GroundCache::Last(ground_at(0)));
}

#[test]
fn a_miss_leaves_an_empty_cache_empty() {
    let mut cache = GroundCache::Empty;
    cache.update(None);
    assert_eq!(cache, GroundCache::Empty);
    cache.into_last();
    assert_eq!(cache, GroundCache::Empty);
}

#[test]
fn current_ground_that_is_not_viable_does_not_ground() {
    let cache = GroundCache::Ground(ground_at(1_200_000));
    assert!(cache.current().is_some());
    assert!(!cache.grounded());
}

#[test]
fn settling_takes_in_both_casts() {
    let mut caster = GroundCaster::default();
    let mut ground = GroundCast::default();
    let mut viable = ViableGroundCast::default();
    settle_ground(
        &mut caster,
        &mut ground,
        &mut viable,
        Some(ground_at(0)),
        Some(ground_at(1_200_000)),
        false,
        raw(16_000),
    );
    assert_eq!(viable.0, GroundCache::Ground(ground_at(0)));
    assert_eq!(ground.0, GroundCache::Ground(ground_at(1_200_000)));

    settle_ground(&mut caster, &mut ground, &mut viable, None, None, false, raw(16_000));
    assert_eq!(viable.0, GroundCache::Last(ground_at(0)));
    assert_eq!(ground.0, GroundCache::Last(ground_at(1_200_000)));
}

#[test]
fn settling_keeps_ground_that_is_not_viable_out_of_the_viable_cache() {
    let mut caster = GroundCaster::default();
    let mut ground = GroundCast::default();
    let mut viable = ViableGroundCast(GroundCache::Ground(ground_at(0)));
    settle_ground(
        &mut caster,
        &mut ground,
        &mut viable,
        Some(ground_at(1_200_000)),
        Some(ground_at(1_200_000)),
        false,
        raw(16_000),
    );
    assert_eq!(viable.0, GroundCache::Last(ground_at(0)));
    assert_eq!(ground.0, GroundCache::Ground(ground_at(1_200_000)));
}

#[test]
fn a_skipping_caster_runs_its_timer_down_and_finds_nothing() {
    let mut caster = GroundCaster::default();
    caster.skip_ground_check_timer = raw(40_000);
    assert!(!caster.casting());
    let mut ground = GroundCast(GroundCache::Ground(ground_at(0)));
    let mut viable = ViableGroundCast(GroundCache::Ground(ground_at(0)));
    settle_ground(
        &mut caster,
        &mut ground,
        &mut viable,
        Some(ground_at(900_000)),
        Some(ground_at(900_000)),
        false,
        raw(16_000),
    );
    assert_eq!(caster.skip_ground_check_timer, raw(24_000));
    assert_eq!(viable.0, GroundCache::Last(ground_at(0)));
    assert_eq!(ground.0, GroundCache::Last(ground_at(0)));
    settle_ground(&mut caster, &mut ground, &mut viable, None, None, false, raw(16_000));
    assert_eq!(caster.skip_ground_check_timer, raw(8_000));
    settle_ground(&mut caster, &mut ground, &mut viable, None, None, false, raw(16_000));
    assert_eq!(caster.skip_ground_check_timer, raw(0));
    assert!(caster.casting());
}

#[test]
fn touching_anything_ends_the_skipping() {
    let mut caster = GroundCaster::default();
    caster.skip_ground_check_timer = raw(500_000);
    let mut ground = GroundCast::default();
    let mut viable = ViableGroundCast::default();
    settle_ground(&mut caster, &mut ground, &mut viable, None, None, true, raw(16_000));
    assert_eq!(caster.skip_ground_check_timer, raw(0));
    assert!(caster.casting());
}

#[test]
fn the_override_keeps_the_caster_from_casting() {
    let mut caster = GroundCaster::default();
    caster.skip_ground_check_override = true;
    assert!(!caster.casting());
    let mut ground = GroundCast::default();
    let mut viable = ViableGroundCast::default();
    settle_ground(
        &mut caster,
        &mut ground,
        &mut viable,
        Some(ground_at(0)),
        Some(ground_at(0)),
        true,
        raw(16_000),
    );
    assert_eq!(viable.0, GroundCache::Empty);
    assert_eq!(ground.0, GroundCache::Empty);
    assert!(!caster.casting());
}

#[test]
fn a_tick_of_no_duration_changes_nothing() {
    let mut caster = GroundCaster::default();
    caster.skip_ground_check_timer = raw(40_000);
    let mut ground = GroundCast::default();
    let mut viable = ViableGroundCast::default();
    settle_ground(
        &mut caster,
        &mut ground,
        &mut viable,
        Some(ground_at(0)),
        Some(ground_at(0)),
        true,
        raw(0),
    );
    assert_eq!(caster.skip_ground_check_timer, raw(40_000));
    assert_eq!(viable.0, GroundCache::Empty);
    assert_eq!(ground.0, GroundCache::Empty);
}

#[test]
fn a_body_at_the_float_distance_is_grounded() {
    let viable = ViableGroundCast(GroundCache::Ground(ground_at(0)));
    assert!(grounded_with(vec(0, 550_000, 0), Vec3::zero(), &viable));
    // The band reaches from 0.55 below the float distance to 0.1 above it.
    assert!(grounded_with(vec(0, 450_000, 0), Vec3::zero(), &viable));
    assert!(!grounded_with(vec(0, 449_999, 0), Vec3::zero(), &viable));
    assert!(grounded_with(vec(0, 1_100_000, 0), Vec3::zero(), &viable));
    assert!(!grounded_with(vec(0, 1_100_001, 0), Vec3::zero(), &viable));
}

#[test]
fn without_current_viable_ground_nothing_is_grounded() {
    assert!(!grounded_with(vec(0, 550_000, 0), Vec3::zero(), &ViableGroundCast::default()));
    let archived = ViableGroundCast(GroundCache::Last(ground_at(0)));
    assert!(!grounded_with(vec(0, 550_000, 0), Vec3::zero(), &archived));
}

#[test]
fn speed_widens_the_band_by_the_speed_and_no_more() {
    let viable = ViableGroundCast(GroundCache::Ground(ground_at(0)));
    // 0.11 below the float distance is outside the band at rest.
    let low = vec(0, 440_000, 0);
    assert!(!grounded_with(low, Vec3::zero(), &viable));
    // Rising at 0.1 or less leaves the band as it is.
    assert!(!grounded_with(low, vec(0, 100_000, 0), &viable));
    // Rising at 0.2 moves the upper end from 0.1 to 0.3.
    assert!(grounded_with(low, vec(0, 200_000, 0), &viable));
    assert!(grounded_with(vec(0, 250_000, 0), vec(0, 200_000, 0), &viable));
    assert!(!grounded_with(vec(0, 249_999, 0), vec(0, 200_000, 0), &viable));

    // 0.65 above the float distance is outside the band at rest.
    let high = vec(0, 1_200_000, 0);
    assert!(!grounded_with(high, Vec3::zero(), &viable));
    assert!(!grounded_with(high, vec(0, -550_000, 0), &viable));
    // Falling at 0.6 moves the lower end from -0.55 to -1.15.
    assert!(grounded_with(high, vec(0, -600_000, 0), &viable));
    assert!(grounded_with(vec(0, 1_700_000, 0), vec(0, -600_000, 0), &viable));
    assert!(!grounded_with(vec(0, 1_700_001, 0), vec(0, -600_000, 0), &viable));
    // Sideways speed does not count.
    assert!(!grounded_with(high, vec(9_000_000, 0, 9_000_000), &viable));
}

#[test]
fn rising_and_falling_are_treated_alike() {
    // A band that is its own mirror image: 0.3 to either side of the float distance.
    let float = Float {
        min_offset: raw(-300_000),
        max_offset: raw(300_000),
        ..Float::default()
    };
    let viable = ViableGroundCast(GroundCache::Ground(ground_at(0)));
    let grounded = |height: i64, speed: i64| {
        let mut grounded = Grounded(false);
        determine_groundedness(
            vec(0, height, 0),
            &Gravity::default(),
            &float,
            &viable,
            &ControllerVelocity { linear: vec(0, speed, 0), angular: Vec3::zero() },
            &mut grounded,
        );
        grounded.0
    };
    let mut offset = -1_500_000;
    while offset <= 1_500_000 {
        for speed in [0, 100_000, 300_000, 300_001, 700_000, 1_200_000] {
            // The offset is the float distance less the height.
            let above = grounded(550_000 - offset, speed);
            let below = grounded(550_000 + offset, -speed);
            assert_eq!(above, below);
            // The band is never wider than the configured one moved out by the speed.
            if above {
                assert!(offset <= 300_000 + speed && offset >= -300_000);
            }
            if (-300_000..=300_000).contains(&offset) {
                assert!(above);
            }
        }
        offset += 50_000;
    }
}

#[test]
fn the_band_moves_with_the_contact_point() {
    let cast = CastResult {
        toi: raw(500_000),
        normal: up(),
        point: vec(0, 10_000_000, 0),
        angle: raw(0),
    };
    let ground =
        Ground::from_cast(Entity(1), cast, &GroundCaster::default(), still(), Vec3::zero());
    let viable = ViableGroundCast(GroundCache::Ground(ground));
    assert!(grounded_with(vec(0, 10_550_000, 0), Vec3::zero(), &viable));
    assert!(!grounded_with(vec(0, 550_000, 0), Vec3::zero(), &viable));
}
