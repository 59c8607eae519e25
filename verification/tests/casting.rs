use std::cell::RefCell;
use std::collections::VecDeque;

use wanderlust::controller::casting::{
    average_normals, classify_shape_hit, GroundCastParams, ShapeOutcome, PENETRATION_ITERATIONS,
};
use wanderlust::controller::gravity::Gravity;
use wanderlust::controller::ground::{
    find_ground, ground_of_hit, CastResult, GroundCache, GroundCast, GroundCaster,
    ViableGroundCast, FUDGE,
};
use wanderlust::fixed::Fixed;
use wanderlust::physics::ControllerVelocity;
use wanderlust::query::{
    Entity, ExcludedSet, PhysicsBackend, QueryFilter, RayCastResult, ShapeCastResult,
};
use wanderlust::vec3::Vec3;

fn raw(value: i64) -> Fixed {
    Fixed::from_raw(value)
}

fn vec(x: i64, y: i64, z: i64) -> Vec3 {
    Vec3::new(raw(x), raw(y), raw(z))
}

fn up() -> Vec3 {
    vec(0, 1_000_000, 0)
}

fn down() -> Vec3 {
    vec(0, -1_000_000, 0)
}

#[derive(Debug, PartialEq)]
enum Call {
    Shape { position: Vec3, direction: Vec3, max_toi: Fixed },
    Ray { origin: Vec3, direction: Vec3, max_toi: Fixed },
    Manifolds { position: Vec3 },
    Contacts,
}

/// A world that is flat at height zero for rays, and that answers shape casts and angle
/// measurements from a script.
struct World {
    shapes: RefCell<VecDeque<Option<ShapeCastResult>>>,
    shape_default: Option<ShapeCastResult>,
    angles: RefCell<VecDeque<i64>>,
    angle_default: i64,
    floor_normal: Vec3,
    floor: bool,
    manifolds: Vec<Vec3>,
    extent: i64,
    touching: bool,
    calls: RefCell<Vec<Call>>,
}

impl World {
    fn flat() -> World {
        World {
            shapes: RefCell::new(VecDeque::new()),
            shape_default: None,
            angles: RefCell::new(VecDeque::new()),
            angle_default: 0,
            floor_normal: up(),
            floor: true,
            manifolds: Vec::new(),
            extent: 300_000,
            touching: false,
            calls: RefCell::new(Vec::new()),
        }
    }

    fn count(&self, wanted: fn(&Call) -> bool) -> usize {
        self.calls.borrow().iter().filter(|call| wanted(call)).count()
    }

    fn shape_casts(&self) -> usize {
        self.count(|call| matches!(call, Call::Shape { .. }))
    }

    fn ray_casts(&self) -> usize {
        self.count(|call| matches!(call, Call::Ray { .. }))
    }

    fn manifold_queries(&self) -> usize {
        self.count(|call| matches!(call, Call::Manifolds { .. }))
    }
}

impl PhysicsBackend for World {
    fn shape_cast(
        &self,
        position: Vec3,
        direction: Vec3,
        max_toi: Fixed,
        _filter: &QueryFilter,
    ) -> Option<ShapeCastResult> {
        self.calls.borrow_mut().push(Call::Shape { position, direction, max_toi });
        match self.shapes.borrow_mut().pop_front() {
            Some(answer) => answer,
            None => self.shape_default,
        }
    }

    fn ray_cast(
        &self,
        origin: Vec3,
        direction: Vec3,
        max_toi: Fixed,
        _filter: &QueryFilter,
    ) -> Option<RayCastResult> {
        self.calls.borrow_mut().push(Call::Ray { origin, direction, max_toi });
        if !self.floor || direction != down() || origin.y.raw < 0 || origin.y.raw > max_toi.raw {
            return None;
        }
        Some(RayCastResult {
            entity: Entity(5),
            toi: origin.y,
            normal: self.floor_normal,
            point: Vec3::new(origin.x, Fixed::zero(), origin.z),
        })
    }

    fn contact_manifolds(&self, position: Vec3, _filter: &QueryFilter) -> Vec<Vec3> {
        self.calls.borrow_mut().push(Call::Manifolds { position });
        self.manifolds.clone()
    }

    fn shape_extent(&self, _direction: Vec3) -> Fixed {
        raw(self.extent)
    }

    fn entity_has_contacts(&self, _entity: Entity) -> bool {
        self.calls.borrow_mut().push(Call::Contacts);
        self.touching
    }

    fn rigid_body(&self, collider: Entity) -> Entity {
        Entity(collider.0 * 10)
    }

    fn velocity(&self, entity: Entity) -> ControllerVelocity {
        ControllerVelocity {
            linear: vec(entity.0 as i64, 0, 0),
            angular: vec(0, 1_000_000, 0),
        }
    }

    fn center_of_mass(&self, _entity: Entity) -> Vec3 {
        vec(0, 0, 2_000_000)
    }

    fn orthonormal_pair(&self, _direction: Vec3) -> (Vec3, Vec3) {
        (vec(1_000_000, 0, 0), vec(0, 0, 1_000_000))
    }

    fn angle_between(&self, _a: Vec3, _b: Vec3) -> Fixed {
        match self.angles.borrow_mut().pop_front() {
            Some(angle) => raw(angle),
            None => raw(self.angle_default),
        }
    }
}

fn params<'a>(exclude: &'a ExcludedSet) -> GroundCastParams<'a> {
    GroundCastParams {
        position: vec(0, 500_000, 0),
        direction: down(),
        max_toi: raw(1_050_000),
        filter: QueryFilter { caster: Entity(1), exclude },
    }
}

fn hit(toi: i64, normal: Vec3) -> ShapeCastResult {
    ShapeCastResult {
        entity: Entity(5),
        toi: raw(toi),
        normal1: normal,
        normal2: normal.neg(),
        point1: Vec3::zero(),
        point2: vec(0, -1, 0),
        penetrating: false,
    }
}

fn overlap() -> ShapeCastResult {
    ShapeCastResult { penetrating: true, ..hit(0, Vec3::zero()) }
}

fn ray_hit(toi: i64, normal: Vec3, point: Vec3) -> Option<RayCastResult> {
    Some(RayCastResult { entity: Entity(5), toi: raw(toi), normal, point })
}

#[test]
fn the_filter_leaves_out_the_caster_and_what_is_excluded() {
    let mut exclude = ExcludedSet::new();
    assert!(!exclude.contains(Entity(3)));
    assert!(exclude.insert(Entity(3)));
    assert!(!exclude.insert(Entity(3)));
    assert!(exclude.contains(Entity(3)));
    assert!(!exclude.contains(Entity(2)));
    let filter = QueryFilter { caster: Entity(1), exclude: &exclude };
    assert!(!filter.admits(Entity(1)));
    assert!(!filter.admits(Entity(3)));
    assert!(filter.admits(Entity(2)));
    let nothing = ExcludedSet::default();
    let open = QueryFilter { caster: Entity(3), exclude: &nothing };
    assert!(open.admits(Entity(1)));
    assert!(!open.admits(Entity(3)));
}

#[test]
fn shape_hits_are_told_apart() {
    assert_eq!(classify_shape_hit(None), ShapeOutcome::Missed);
    assert!(ShapeOutcome::Penetrating.overlapping());
    assert!(!ShapeOutcome::Missed.overlapping());
    assert!(!classify_shape_hit(Some(hit(1, up()))).overlapping());
    assert_eq!(classify_shape_hit(Some(overlap())), ShapeOutcome::Penetrating);
    // A shape that did not move at all overlaps too.
    assert_eq!(classify_shape_hit(Some(hit(0, up()))), ShapeOutcome::Penetrating);
    assert_eq!(classify_shape_hit(Some(hit(-5, up()))), ShapeOutcome::Penetrating);
    assert_eq!(
        classify_shape_hit(Some(hit(1, up()))),
        ShapeOutcome::Clear {
            entity: Entity(5),
            cast: CastResult { toi: raw(1), normal: up(), point: Vec3::zero(), angle: raw(0) },
        }
    );
}

#[test]
fn normals_are_averaged_by_their_alignment_with_up() {
    let cast = CastResult { toi: raw(500_000), normal: up(), point: Vec3::zero(), angle: raw(0) };
    let hits = vec![
        ray_hit(500_000, up(), vec(10_000, 0, 0)),
        None,
        ray_hit(500_000, vec(600_000, 800_000, 0), vec(0, 0, 10_000)),
    ];
    // Weights 1 and 0.8: (0.48, 1.64, 0) over 1.8.
    assert_eq!(average_normals(cast, &hits, up()), Some(vec(266_666, 911_111, 0)));
}

#[test]
fn samples_that_tell_of_another_surface_are_left_out() {
    let cast = CastResult { toi: raw(500_000), normal: up(), point: Vec3::zero(), angle: raw(0) };
    let slanted = vec(600_000, 800_000, 0);
    let hits = vec![
        // Too far from the contact: twice the slack is 0.1.
        ray_hit(500_000, slanted, vec(100_000, 0, 0)),
        // Behind the origin of the ray.
        ray_hit(0, slanted, vec(0, 0, 0)),
        // Without a normal.
        ray_hit(500_000, Vec3::zero(), vec(0, 0, 0)),
        ray_hit(500_000, up(), vec(99_999, 0, 0)),
    ];
    assert_eq!(average_normals(cast, &hits, up()), Some(up()));
    assert_eq!(average_normals(cast, &hits[..3].to_vec(), up()), None);
    assert_eq!(average_normals(cast, &Vec::new(), up()), None);
}

#[test]
fn normals_that_cancel_give_no_ground() {
    let cast = CastResult { toi: raw(500_000), normal: up(), point: Vec3::zero(), angle: raw(0) };
    let hits = vec![
        ray_hit(500_000, up(), Vec3::zero()),
        ray_hit(500_000, down(), Vec3::zero()),
    ];
    assert_eq!(average_normals(cast, &hits, up()), None);
    // A wall lines up with nothing: its weight is zero.
    let wall = vec![ray_hit(500_000, vec(1_000_000, 0, 0), Vec3::zero())];
    assert_eq!(average_normals(cast, &wall, up()), None);
}

#[test]
fn overlaps_are_left_along_the_contact_normals() {
    let exclude = ExcludedSet::new();
    let mut params = params(&exclude);
    params.nudge(&vec![up(), vec(1_000_000, 0, 0), vec(0, 0, -2_000_000)]);
    assert_eq!(params.position, vec(50_000, 550_000, -100_000));
    assert_eq!(params.direction, down());
    assert_eq!(params.max_toi, raw(1_050_000));
    params.nudge(&Vec::new());
    assert_eq!(params.position, vec(50_000, 550_000, -100_000));
    assert_eq!(FUDGE, 50_000);
}

#[test]
fn sliding_follows_the_slope_down() {
    let exclude = ExcludedSet::new();
    let mut params = params(&exclude);
    let cast = CastResult {
        toi: raw(500_000),
        normal: vec(939_693, 342_020, 0),
        point: Vec3::zero(),
        angle: raw(1_221_730),
    };
    params.slide(cast, up());
    assert_eq!(params.position, Vec3::zero());
    assert_eq!(params.direction, vec(342_019, -939_693, 0));
    assert_eq!(params.max_toi, raw(550_000));
    // A cast that used up its length has none left.
    params.slide(CastResult { toi: raw(2_000_000), ..cast }, up());
    assert_eq!(params.max_toi, raw(0));
}

#[test]
fn rays_start_where_the_shape_would_touch() {
    let exclude = ExcludedSet::new();
    let params = params(&exclude);
    assert_eq!(params.ray_origin(raw(300_000)), vec(0, 200_000, 0));
    let cast = CastResult {
        toi: raw(400_000),
        normal: up(),
        point: vec(1_000_000, 0, 1_000_000),
        angle: raw(0),
    };
    let x = vec(1_000_000, 0, 0);
    let z = vec(0, 0, 1_000_000);
    assert_eq!(params.sample_origin(cast, 0, x, z), vec(1_050_000, 400_000, 950_000));
    assert_eq!(params.sample_origin(cast, 1, x, z), vec(1_050_000, 400_000, 1_050_000));
    assert_eq!(params.sample_origin(cast, 2, x, z), vec(950_000, 400_000, 950_000));
    assert_eq!(params.sample_origin(cast, 3, x, z), vec(950_000, 400_000, 1_050_000));
    assert_eq!(params.sample_origin(cast, 4, x, z), vec(1_000_000, 400_000, 1_000_000));
}

#[test]
fn a_clear_shape_hit_gets_its_normal_from_the_rays() {
    let world = World { angle_default: 100_000, ..World::flat() };
    // The shape cast reports a normal as an edge would give it.
    world.shapes.borrow_mut().push_back(Some(hit(500_000, vec(600_000, 800_000, 0))));
    let exclude = ExcludedSet::new();
    let mut params = params(&exclude);
    let found = params.cast(&world, up());
    assert_eq!(
        found,
        Some((
            Entity(5),
            CastResult { toi: raw(500_000), normal: up(), point: Vec3::zero(), angle: raw(100_000) },
        ))
    );
    assert_eq!(world.shape_casts(), 1);
    assert_eq!(world.manifold_queries(), 0);
    assert_eq!(world.ray_casts(), 5);
    assert_eq!(
        world.calls.borrow()[1],
        Call::Ray { origin: vec(50_000, 500_000, -50_000), direction: down(), max_toi: raw(1_050_000) }
    );
    assert_eq!(
        world.calls.borrow()[5],
        Call::Ray { origin: vec(0, 500_000, 0), direction: down(), max_toi: raw(1_050_000) }
    );
    assert_eq!(params.position, vec(0, 500_000, 0));
}

#[test]
fn a_shape_that_finds_nothing_falls_back_to_a_ray() {
    let world = World::flat();
    let exclude = ExcludedSet::new();
    let mut params = params(&exclude);
    let found = params.cast(&world, up());
    assert_eq!(
        found,
        Some((
            Entity(5),
            CastResult { toi: raw(200_000), normal: up(), point: Vec3::zero(), angle: raw(0) },
        ))
    );
    assert_eq!(world.shape_casts(), 1);
    assert_eq!(world.ray_casts(), 6);
    // The ray starts on the surface of the shape, 0.3 below its origin.
    assert_eq!(
        world.calls.borrow()[1],
        Call::Ray { origin: vec(0, 200_000, 0), direction: down(), max_toi: raw(1_050_000) }
    );
}

#[test]
fn nothing_below_means_no_ground() {
    let world = World { floor: false, ..World::flat() };
    let exclude = ExcludedSet::new();
    let mut params = params(&exclude);
    assert_eq!(params.cast(&world, up()), None);
    assert_eq!(params.cast_shape(&world), None);
    assert_eq!(params.cast_ray(&world), None);
    assert_eq!(params.cast_iters(&world, up(), 5), None);
    assert_eq!(params.viable_cast_iters(&world, raw(1_047_198), up(), 5), None);
}

#[test]
fn an_overlap_is_corrected_and_the_cast_tried_again() {
    let world = World { manifolds: vec![up()], ..World::flat() };
    world.shapes.borrow_mut().push_back(Some(overlap()));
    world.shapes.borrow_mut().push_back(Some(hit(0, up())));
    world.shapes.borrow_mut().push_back(Some(hit(600_000, up())));
    let exclude = ExcludedSet::new();
    let mut params = params(&exclude);
    let found = params.cast(&world, up());
    assert_eq!(found.map(|(_, cast)| cast.toi), Some(raw(600_000)));
    assert_eq!(world.shape_casts(), 3);
    assert_eq!(world.manifold_queries(), 2);
    assert_eq!(params.position, vec(0, 600_000, 0));
    assert_eq!(world.calls.borrow()[1], Call::Manifolds { position: vec(0, 500_000, 0) });
    assert_eq!(
        world.calls.borrow()[2],
        Call::Shape { position: vec(0, 550_000, 0), direction: down(), max_toi: raw(1_050_000) }
    );
}

#[test]
fn an_overlap_that_does_not_end_is_given_up_after_twelve_corrections() {
    let world =
        World { shape_default: Some(overlap()), manifolds: vec![up()], ..World::flat() };
    let exclude = ExcludedSet::new();
    let mut params = params(&exclude);
    let found = params.cast(&world, up());
    assert_eq!(PENETRATION_ITERATIONS, 12);
    assert_eq!(world.manifold_queries(), 12);
    assert_eq!(world.shape_casts(), 13);
    assert_eq!(params.position, vec(0, 1_100_000, 0));
    // The ray takes over from where the corrections ended, 0.3 below the origin of the shape.
    assert_eq!(
        world.calls.borrow()[25],
        Call::Ray { origin: vec(0, 800_000, 0), direction: down(), max_toi: raw(1_050_000) }
    );
    assert_eq!(found.map(|(_, cast)| cast.toi), Some(raw(800_000)));
    assert_eq!(world.ray_casts(), 6);
}

#[test]
fn an_overlap_that_does_not_end_over_nothing_finds_nothing() {
    let world = World {
        shape_default: Some(overlap()),
        manifolds: vec![up()],
        floor: false,
        ..World::flat()
    };
    let exclude = ExcludedSet::new();
    let mut params = params(&exclude);
    assert_eq!(params.cast(&world, up()), None);
    assert_eq!(world.manifold_queries(), 12);
    assert_eq!(world.ray_casts(), 1);
}

#[test]
fn casting_the_shape_alone_takes_an_overlap_for_nothing() {
    let world = World::flat();
    world.shapes.borrow_mut().push_back(Some(overlap()));
    world.shapes.borrow_mut().push_back(Some(hit(500_000, up())));
    let exclude = ExcludedSet::new();
    let params = params(&exclude);
    assert_eq!(params.cast_shape(&world), None);
    assert_eq!(
        params.cast_shape(&world),
        Some((
            Entity(5),
            CastResult { toi: raw(500_000), normal: up(), point: Vec3::zero(), angle: raw(0) },
        ))
    );
}

#[test]
fn ground_that_is_too_steep_is_not_viable_and_the_cast_slides_on() {
    let world = World { angle_default: 1_221_730, ..World::flat() };
    world.shapes.borrow_mut().push_back(Some(hit(500_000, up())));
    let exclude = ExcludedSet::new();
    let mut params = params(&exclude);
    assert_eq!(params.viable_cast(&world, up(), raw(1_047_198)), None);
    // The cast has moved to where it hit; the rebuilt normal points up, so that downhill is
    // nowhere.
    assert_eq!(params.position, Vec3::zero());
    assert_eq!(params.direction, Vec3::zero());
    assert_eq!(params.max_toi, raw(550_000));
}

#[test]
fn a_viable_cast_is_handed_back_as_it_is() {
    let world = World { angle_default: 1_047_198, ..World::flat() };
    world.shapes.borrow_mut().push_back(Some(hit(500_000, up())));
    let exclude = ExcludedSet::new();
    let mut params = params(&exclude);
    let found = params.viable_cast(&world, up(), raw(1_047_198));
    assert_eq!(found.map(|(_, cast)| cast.angle), Some(raw(1_047_198)));
    assert_eq!(params.position, vec(0, 500_000, 0));
}

#[test]
fn viable_ground_below_a_steep_slope_is_found_on_a_later_attempt() {
    let world = World { floor_normal: vec(939_693, 342_020, 0), ..World::flat() };
    world.angles.borrow_mut().push_back(1_221_730);
    world.angles.borrow_mut().push_back(200_000);
    world.shapes.borrow_mut().push_back(Some(hit(300_000, up())));
    world.shapes.borrow_mut().push_back(Some(ShapeCastResult {
        point1: vec(0, 200_000, 0),
        ..hit(100_000, up())
    }));
    let exclude = ExcludedSet::new();
    let mut params = params(&exclude);
    let found = params.viable_cast_iters(&world, raw(1_047_198), up(), 2);
    assert_eq!(world.shape_casts(), 2);
    // The second cast starts where the first one hit, and points down the slope that the
    // rays found: their normals average to (0.939690, 0.342018, 0).
    assert_eq!(
        world.calls.borrow().iter().filter(|call| matches!(call, Call::Shape { .. })).nth(1),
        Some(&Call::Shape {
            position: vec(0, 200_000, 0),
            direction: vec(342_016, -939_695, 0),
            max_toi: raw(750_000),
        })
    );
    // No ray reaches the ground along the slope in this world, so the second attempt finds
    // no normal.
    assert_eq!(found, None);
}

#[test]
fn every_attempt_is_made_until_ground_is_found() {
    let world = World { floor: false, ..World::flat() };
    let exclude = ExcludedSet::new();
    let mut params = params(&exclude);
    assert_eq!(params.viable_cast_iters(&world, raw(1_047_198), up(), 5), None);
    assert_eq!(world.shape_casts(), 5);
    assert_eq!(params.cast_iters(&world, up(), 3), None);
    assert_eq!(world.shape_casts(), 8);

    // The third attempt finds what the first two missed.
    let late = World { floor: false, ..World::flat() };
    late.shapes.borrow_mut().push_back(None);
    late.shapes.borrow_mut().push_back(None);
    late.shapes.borrow_mut().push_back(Some(hit(500_000, up())));
    let late = World { floor: true, extent: 5_000_000, ..late };
    let found = params.cast_iters(&late, up(), 5);
    assert_eq!(found.map(|(_, cast)| cast.toi), Some(raw(500_000)));
    assert_eq!(late.shape_casts(), 3);
}

#[test]
fn attempts_are_counted() {
    let world = World { angle_default: 1_500_000, shape_default: Some(hit(1, up())), ..World::flat() };
    let exclude = ExcludedSet::new();
    let mut params = params(&exclude);
    params.position = Vec3::zero();
    assert_eq!(params.viable_cast_iters(&world, raw(1_047_198), up(), 0), None);
    assert_eq!(world.shape_casts(), 0);
    assert_eq!(params.cast_iters(&world, up(), 0), None);
    assert_eq!(world.shape_casts(), 0);
}

#[test]
fn the_ground_that_is_found_belongs_to_the_body_of_the_collider() {
    let world = World::flat();
    let cast = CastResult {
        toi: raw(500_000),
        normal: up(),
        point: vec(3_000_000, 0, 2_000_000),
        angle: raw(900_000),
    };
    let ground = ground_of_hit(&world, Entity(5), cast, &GroundCaster::default());
    assert_eq!(ground.entity, Entity(50));
    assert_eq!(ground.cast, cast);
    assert!(ground.viable && !ground.stable);
    assert_eq!(ground.linear_velocity, vec(50, 0, 0));
    assert_eq!(ground.angular_velocity, vec(0, 1_000_000, 0));
    // Turning about y at 1, 3 along x from the center of mass: the point moves along -z.
    assert_eq!(ground.point_velocity, vec(50, 0, -3_000_000));
}

struct Finder {
    caster: GroundCaster,
    ground: GroundCast,
    viable: ViableGroundCast,
}

impl Finder {
    fn new() -> Finder {
        Finder {
            caster: GroundCaster::default(),
            ground: GroundCast::default(),
            viable: ViableGroundCast::default(),
        }
    }

    fn find(&mut self, world: &World, dt: i64) {
        find_ground(
            Entity(1),
            vec(0, 500_000, 0),
            &Gravity::default(),
            &mut self.caster,
            &mut self.ground,
            &mut self.viable,
            world,
            raw(dt),
        );
    }
}

#[test]
fn finding_flat_ground_fills_both_caches() {
    let world = World { shape_default: Some(hit(500_000, up())), ..World::flat() };
    let mut finder = Finder::new();
    finder.find(&world, 16_000);
    let found = *finder.viable.0.current().unwrap();
    assert_eq!(found.entity, Entity(50));
    assert!(found.viable && found.stable);
    assert_eq!(found.cast.toi, raw(500_000));
    assert_eq!(finder.ground.0, GroundCache::Ground(found));
    assert_eq!(
        world.calls.borrow()[0],
        Call::Shape { position: vec(0, 500_000, 0), direction: down(), max_toi: raw(1_050_000) }
    );
    assert!(finder.caster.casting());
}

#[test]
fn finding_nothing_archives_what_was_found() {
    let world = World { shape_default: Some(hit(500_000, up())), ..World::flat() };
    let mut finder = Finder::new();
    finder.find(&world, 16_000);
    let found = *finder.viable.0.current().unwrap();
    let empty = World { floor: false, ..World::flat() };
    finder.find(&empty, 16_000);
    assert_eq!(finder.viable.0, GroundCache::Last(found));
    assert_eq!(finder.ground.0, GroundCache::Last(found));
}

#[test]
fn steep_ground_is_found_but_not_as_viable() {
    let world = World {
        shape_default: Some(hit(500_000, up())),
        angle_default: 1_221_730,
        ..World::flat()
    };
    let mut finder = Finder::new();
    finder.find(&world, 16_000);
    assert_eq!(finder.viable.0, GroundCache::Empty);
    let found = *finder.ground.0.current().unwrap();
    assert!(!found.viable && !found.stable);
    assert_eq!(found.cast.angle, raw(1_221_730));
}

#[test]
fn a_skipping_caster_asks_the_engine_only_for_contacts() {
    let world = World { shape_default: Some(hit(500_000, up())), ..World::flat() };
    let mut finder = Finder::new();
    finder.caster.skip_ground_check_timer = raw(40_000);
    finder.find(&world, 16_000);
    assert_eq!(*world.calls.borrow(), vec![Call::Contacts]);
    assert_eq!(finder.caster.skip_ground_check_timer, raw(24_000));
    assert_eq!(finder.viable.0, GroundCache::Empty);

    // What was found before the skipping is archived.
    let mut landed = Finder::new();
    landed.find(&world, 16_000);
    let found = *landed.viable.0.current().unwrap();
    landed.caster.skip_ground_check_timer = raw(40_000);
    landed.find(&world, 16_000);
    assert_eq!(landed.viable.0, GroundCache::Last(found));
    assert_eq!(landed.ground.0, GroundCache::Last(found));

    let touching = World { touching: true, ..World::flat() };
    finder.find(&touching, 16_000);
    assert_eq!(finder.caster.skip_ground_check_timer, raw(0));
}

#[test]
fn the_parts_of_a_controller_end_with_its_own_body() {
    let parts = wanderlust::controller::parts::Parts { parts: vec![Entity(4), Entity(2)] };
    assert_eq!(parts.parts(Entity(9)), vec![Entity(4), Entity(2), Entity(9)]);
    let alone = wanderlust::controller::parts::Parts::default();
    assert_eq!(alone.parts(Entity(9)), vec![Entity(9)]);
}

#[test]
fn a_tick_of_no_duration_asks_nothing() {
    let world = World { shape_default: Some(hit(500_000, up())), ..World::flat() };
    let mut finder = Finder::new();
    finder.find(&world, 0);
    assert!(world.calls.borrow().is_empty());
    assert_eq!(finder.viable.0, GroundCache::Empty);
}
