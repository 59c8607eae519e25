//! The ground under a controller: what a cast found, how steep it is, what is remembered of
//! it from tick to tick, and whether the body counts as standing on it.

use vstd::prelude::*;
use crate::controller::gravity::Gravity;
use crate::controller::orientation::Float;
use crate::fixed::Fixed;
use crate::physics::ControllerVelocity;
use crate::controller::casting::GroundCastParams;
use crate::query::{Entity, ExcludedSet, PhysicsBackend, QueryFilter, RayCastResult,
    ShapeCastResult, excluded_ids, may_be_touching, may_own};
use crate::vec3::Vec3;

verus! {

/// A small slack used where casts are compared and nudged, in raw units.
pub const FUDGE: i64 = 50_000;

/// How to look for ground under the controller.
pub struct GroundCaster {
    /// How long the ground is still not looked for; set when a jump starts. Ground that is
    /// not looked for is not found.
    pub skip_ground_check_timer: Fixed,
    /// While set, the ground is never looked for.
    pub skip_ground_check_override: bool,
    /// Where the cast starts, relative to the body's origin.
    pub cast_origin: Vec3,
    /// How far down to cast.
    pub cast_length: Fixed,
    /// The colliders that never count as ground.
    pub exclude_from_ground: ExcludedSet,
    /// The steepest slope, in radians from the up vector, on which the controller does not
    /// start to slip.
    pub unstable_ground_angle: Fixed,
    /// The steepest slope, in radians from the up vector, that still counts as ground to stand
    /// on.
    pub max_ground_angle: Fixed,
}

impl GroundCaster {
    /// The thresholds are in order: what is stable is viable too; and the timer is not
    /// negative.
    pub open spec fn wf(&self) -> bool {
        &&& 0 <= self.unstable_ground_angle.raw <= self.max_ground_angle.raw
        &&& 0 <= self.skip_ground_check_timer.raw
    }

    /// Whether the ground is looked for this tick.
    pub open spec fn spec_casting(&self) -> bool {
        self.skip_ground_check_timer.raw == 0 && !self.skip_ground_check_override
    }

    /// Whether the ground is looked for this tick.
    #[verifier::when_used_as_spec(spec_casting)]
    pub fn casting(&self) -> (casting: bool)
        ensures
            casting == self.spec_casting(),
    {
        self.skip_ground_check_timer.raw == 0 && !self.skip_ground_check_override
    }
}

impl Default for GroundCaster {
    fn default() -> (caster: Self)
        ensures
            caster.wf(),
            caster.spec_casting(),
            caster.cast_origin == Vec3::zero(),
            caster.cast_length.raw == 1_050_000,
            excluded_ids(caster.exclude_from_ground) == Set::<u64>::empty(),
            caster.unstable_ground_angle.raw == 785_398,
            caster.max_ground_angle.raw == 1_047_198,
    {
        GroundCaster {
            skip_ground_check_timer: Fixed::zero(),
            skip_ground_check_override: false,
            cast_origin: Vec3::zero(),
            cast_length: Fixed::from_raw(1_050_000),
            exclude_from_ground: ExcludedSet::new(),
            unstable_ground_angle: Fixed::from_raw(785_398),
            max_ground_angle: Fixed::from_raw(1_047_198),
        }
    }
}

/// What a shape cast or a ray cast found.
#[derive(Clone, Copy, Debug, PartialEq, Eq, Structural)]
pub struct CastResult {
    /// How far the cast travelled before it hit.
    pub toi: Fixed,
    /// The normal of the surface that was hit.
    pub normal: Vec3,
    /// Where the surface was hit.
    pub point: Vec3,
    /// The angle between `normal` and the up vector, in radians, as the host measured it.
    pub angle: Fixed,
}

impl CastResult {
    /// The direction along the surface that leads downhill: what is left of the up vector once
    /// its part along the normal is taken away, reversed. Meant for a normal of length one.
    pub open spec fn spec_down_tangent(&self, up_vector: Vec3) -> Vec3 {
        self.normal.spec_scale(self.normal.spec_dot(up_vector)).spec_minus(up_vector)
    }

    /// Whether the surface is no steeper than `max_angle`.
    pub open spec fn spec_viable(&self, max_angle: Fixed) -> bool {
        self.angle.spec_abs().raw <= max_angle.raw
    }

    /// The direction along the surface that leads downhill: what is left of the up vector once
    /// its part along the normal is taken away, reversed. Meant for a normal of length one.
    #[verifier::when_used_as_spec(spec_down_tangent)]
    pub fn down_tangent(&self, up_vector: Vec3) -> (tangent: Vec3)
        ensures
            tangent == self.spec_down_tangent(up_vector),
    {
        self.normal.scale(self.normal.dot(up_vector)).minus(up_vector)
    }

    /// Whether the surface is no steeper than `max_angle`.
    #[verifier::when_used_as_spec(spec_viable)]
    pub fn viable(&self, max_angle: Fixed) -> (viable: bool)
        ensures
            viable == self.spec_viable(max_angle),
    {
        self.angle.abs().raw <= max_angle.raw
    }

    /// The contact as seen from the cast shape, unless the cast began inside the collider.
    /// The angle is left at zero until the host has measured it.
    pub fn from_toi1(toi: ShapeCastResult) -> (cast: Option<Self>)
        ensures
            toi.penetrating ==> cast is None,
            !toi.penetrating ==> cast == Some(
                CastResult {
                    toi: toi.toi,
                    normal: toi.normal1,
                    point: toi.point1,
                    angle: Fixed::spec_zero(),
                },
            ),
    {
        if toi.penetrating {
            None
        } else {
            Some(
                CastResult {
                    toi: toi.toi,
                    normal: toi.normal1,
                    point: toi.point1,
                    angle: Fixed::zero(),
                },
            )
        }
    }

    /// The contact as seen from the collider that was hit, unless the cast began inside it.
    /// The angle is left at zero until the host has measured it.
    pub fn from_toi2(toi: ShapeCastResult) -> (cast: Option<Self>)
        ensures
            toi.penetrating ==> cast is None,
            !toi.penetrating ==> cast == Some(
                CastResult {
                    toi: toi.toi,
                    normal: toi.normal2,
                    point: toi.point2,
                    angle: Fixed::spec_zero(),
                },
            ),
    {
        if toi.penetrating {
            None
        } else {
            Some(
                CastResult {
                    toi: toi.toi,
                    normal: toi.normal2,
                    point: toi.point2,
                    angle: Fixed::zero(),
                },
            )
        }
    }

    /// What a ray hit, as a cast result. The angle is left at zero until the host has measured
    /// it.
    pub fn from_ray(intersection: RayCastResult) -> (cast: Self)
        ensures
            cast == (CastResult {
                toi: intersection.toi,
                normal: intersection.normal,
                point: intersection.point,
                angle: Fixed::spec_zero(),
            }),
    {
        CastResult {
            toi: intersection.toi,
            normal: intersection.normal,
            point: intersection.point,
            angle: Fixed::zero(),
        }
    }
}

/// The ground under the controller, and how it moves.
#[derive(Clone, Copy, Debug, PartialEq, Eq, Structural)]
pub struct Ground {
    /// The body that the ground belongs to.
    pub entity: Entity,
    /// Where and how the ground was hit.
    pub cast: CastResult,
    /// Whether the controller does not slip on this ground.
    pub stable: bool,
    /// Whether the controller can stand on this ground.
    pub viable: bool,
    /// The angular velocity of the ground body.
    pub angular_velocity: Vec3,
    /// The linear velocity of the ground body.
    pub linear_velocity: Vec3,
    /// The velocity of the ground at the point of contact.
    pub point_velocity: Vec3,
}

/// The velocity of the point `point` of a body that turns about `center`.
pub open spec fn point_velocity_at(velocity: ControllerVelocity, center: Vec3, point: Vec3) -> Vec3 {
    velocity.linear.spec_plus(velocity.angular.spec_cross(point.spec_minus(center)))
}

impl Ground {
    /// The ground that `cast` found on the body `entity`, which moves with `velocity` about
    /// its center of mass `center_of_mass`, as a caster with the given thresholds takes it.
    pub open spec fn spec_from_cast(
        entity: Entity,
        cast: CastResult,
        caster: GroundCaster,
        velocity: ControllerVelocity,
        center_of_mass: Vec3,
    ) -> Ground {
        let viable = cast.normal != Vec3::spec_zero() && cast.spec_viable(caster.max_ground_angle);
        Ground {
            entity,
            cast,
            stable: viable && cast.spec_viable(caster.unstable_ground_angle),
            viable,
            angular_velocity: velocity.angular,
            linear_velocity: velocity.linear,
            point_velocity: point_velocity_at(velocity, center_of_mass, cast.point),
        }
    }

    /// The ground that `cast` found on the body `entity`, which moves with `velocity` about
    /// its center of mass `center_of_mass` (in world space). A surface counts as viable where
    /// its normal is not zero and its angle to the up vector is at most the caster's greatest
    /// ground angle, and as stable where it is viable and the angle is at most the angle at
    /// which slipping starts.
    pub fn from_cast(
        entity: Entity,
        cast: CastResult,
        caster: &GroundCaster,
        velocity: ControllerVelocity,
        center_of_mass: Vec3,
    ) -> (ground: Self)
        ensures
            ground == Ground::spec_from_cast(entity, cast, *caster, velocity, center_of_mass),
            ground.viable == (cast.normal != Vec3::spec_zero() && cast.spec_viable(
                caster.max_ground_angle,
            )),
            ground.stable == (ground.viable && cast.spec_viable(caster.unstable_ground_angle)),
            !(cast.angle.raw <= caster.max_ground_angle.raw) ==> !ground.viable,
            ground.stable ==> ground.viable,
    {
        let point_velocity = velocity.linear.plus(
            velocity.angular.cross(cast.point.minus(center_of_mass)),
        );
        let (stable, viable) = if !cast.normal.is_zero() {
            let viable = cast.viable(caster.max_ground_angle);
            let stable = cast.viable(caster.unstable_ground_angle) && viable;
            (stable, viable)
        } else {
            (false, false)
        };
        Ground {
            entity,
            cast,
            stable,
            viable,
            angular_velocity: velocity.angular,
            linear_velocity: velocity.linear,
            point_velocity,
        }
    }
}

/// The ground that is remembered from tick to tick.
#[derive(Clone, Copy, Debug, PartialEq, Eq, Structural)]
pub enum GroundCache {
    /// The ground that the last cast found.
    Ground(Ground),
    /// The ground that was found before the casts began to miss.
    Last(Ground),
    /// No ground has been found.
    Empty,
}

impl GroundCache {
    /// The cache after a cast that missed: ground that was current becomes the last ground,
    /// and anything else stays.
    pub open spec fn spec_into_last(self) -> GroundCache {
        match self {
            GroundCache::Ground(ground) => GroundCache::Last(ground),
            other => other,
        }
    }

    /// The cache after a cast: ground that was found becomes current; a miss archives what
    /// was current.
    pub open spec fn spec_update(self, ground: Option<Ground>) -> GroundCache {
        match ground {
            Some(ground) => GroundCache::Ground(ground),
            None => self.spec_into_last(),
        }
    }

    /// The ground that the last cast found.
    pub open spec fn spec_current(&self) -> Option<Ground> {
        match *self {
            GroundCache::Ground(ground) => Some(ground),
            _ => None,
        }
    }

    /// The ground that was found last, whether by the last cast or by an earlier one.
    pub open spec fn spec_last(&self) -> Option<Ground> {
        match *self {
            GroundCache::Ground(ground) => Some(ground),
            GroundCache::Last(ground) => Some(ground),
            GroundCache::Empty => None,
        }
    }

    /// Whether the last cast found ground that the controller can stand on.
    pub open spec fn spec_grounded(&self) -> bool {
        match *self {
            GroundCache::Ground(ground) => ground.viable,
            _ => false,
        }
    }

    /// Takes in the result of a cast: ground that was found becomes current; a miss archives
    /// what was current.
    pub fn update(&mut self, ground: Option<Ground>)
        ensures
            *final(self) == old(self).spec_update(ground),
    {
        match ground {
            Some(ground) => {
                *self = GroundCache::Ground(ground);
            },
            None => {
                self.into_last();
            },
        }
    }

    /// Archives the current ground: it becomes the last ground. Anything else stays.
    pub fn into_last(&mut self)
        ensures
            *final(self) == old(self).spec_into_last(),
    {
        let archived = match *self {
            GroundCache::Ground(ground) => GroundCache::Last(ground),
            other => other,
        };
        *self = archived;
    }

    /// The ground that the last cast found.
    pub fn current(&self) -> (ground: Option<&Ground>)
        ensures
            match ground {
                Some(found) => self.spec_current() == Some(*found),
                None => self.spec_current() is None,
            },
    {
        match self {
            GroundCache::Ground(ground) => Some(ground),
            _ => None,
        }
    }

    /// The ground that was found last, whether by the last cast or by an earlier one.
    pub fn last(&self) -> (ground: Option<&Ground>)
        ensures
            match ground {
                Some(found) => self.spec_last() == Some(*found),
                None => self.spec_last() is None,
            },
    {
        match self {
            GroundCache::Ground(ground) => Some(ground),
            GroundCache::Last(ground) => Some(ground),
            GroundCache::Empty => None,
        }
    }

    /// Whether the last cast found ground that the controller can stand on.
    #[verifier::when_used_as_spec(spec_grounded)]
    pub fn grounded(&self) -> (grounded: bool)
        ensures
            grounded == self.spec_grounded(),
    {
        match self {
            GroundCache::Ground(ground) => ground.viable,
            _ => false,
        }
    }
}

impl Default for GroundCache {
    fn default() -> (cache: Self)
        ensures
            cache is Empty,
    {
        GroundCache::Empty
    }
}

/// The ground that was found, whether or not the controller can stand on it.
#[derive(Clone, Copy, Debug, PartialEq, Eq, Structural)]
pub struct GroundCast(pub GroundCache);

/// The ground that was found and that the controller can stand on.
#[derive(Clone, Copy, Debug, PartialEq, Eq, Structural)]
pub struct ViableGroundCast(pub GroundCache);

impl Default for GroundCast {
    fn default() -> (cast: Self)
        ensures
            cast.0 is Empty,
    {
        GroundCast(GroundCache::Empty)
    }
}

impl Default for ViableGroundCast {
    fn default() -> (cast: Self)
        ensures
            cast.0 is Empty,
    {
        ViableGroundCast(GroundCache::Empty)
    }
}

/// Whether the controller counts as standing on the ground.
#[derive(Clone, Copy, Debug, PartialEq, Eq, Structural)]
pub struct Grounded(pub bool);

impl Default for Grounded {
    fn default() -> (grounded: Self)
        ensures
            !grounded.0,
    {
        Grounded(false)
    }
}

/// The force that the controller puts on the ground it stands on.
#[derive(Clone, Copy, Debug, PartialEq, Eq, Structural)]
pub struct GroundForce {
    /// The linear force.
    pub linear: Vec3,
    /// The torque.
    pub angular: Vec3,
}

impl Default for GroundForce {
    fn default() -> (force: Self)
        ensures
            force.linear == Vec3::zero(),
            force.angular == Vec3::zero(),
    {
        GroundForce { linear: Vec3::zero(), angular: Vec3::zero() }
    }
}

/// The ground sample where it is viable, and nothing where it is not.
pub open spec fn only_viable(ground: Option<Ground>) -> Option<Ground> {
    match ground {
        Some(found) => if found.viable {
            Some(found)
        } else {
            None
        },
        None => None,
    }
}

/// What the skip timer of `caster` shows after a tick of `dt`: it is left alone in a tick of no
/// duration; else a body that touches anything has it set to zero, and a caster that is not
/// casting has it run down.
pub open spec fn settled_timer(caster: GroundCaster, touching: bool, dt: Fixed) -> Fixed {
    if dt.raw == 0 {
        caster.skip_ground_check_timer
    } else if touching {
        Fixed::spec_zero()
    } else if caster.spec_casting() {
        caster.skip_ground_check_timer
    } else {
        caster.skip_ground_check_timer.spec_minus(dt).spec_max(Fixed::spec_zero())
    }
}

/// What `cache` holds after a tick of `dt` in which `found` was found: it is left alone in a
/// tick of no duration; else a caster that is casting has it take in what was found, and for
/// one that is not, nothing was looked for, which counts as a miss.
pub open spec fn settled_cache(
    caster: GroundCaster,
    cache: GroundCache,
    found: Option<Ground>,
    dt: Fixed,
) -> GroundCache {
    if dt.raw == 0 {
        cache
    } else if caster.spec_casting() {
        cache.spec_update(found)
    } else {
        cache.spec_into_last()
    }
}

/// Takes in what this tick's casts found.
///
/// Nothing happens in a tick of no duration. While the caster is casting, both caches take
/// in their result: `next_viable_ground` where it is viable, else a miss, and `next_ground`.
/// While it is not, nothing was looked for, which counts as a miss for both caches, and the
/// skip timer runs down by `dt`. In either case a body that touches anything starts to cast
/// again at the next tick, so that it is never late to notice that it has landed.
pub fn settle_ground(
    caster: &mut GroundCaster,
    ground: &mut GroundCast,
    viable_ground: &mut ViableGroundCast,
    next_viable_ground: Option<Ground>,
    next_ground: Option<Ground>,
    touching: bool,
    dt: Fixed,
)
    ensures
        final(caster).skip_ground_check_override == old(caster).skip_ground_check_override,
        final(caster).cast_origin == old(caster).cast_origin,
        final(caster).cast_length == old(caster).cast_length,
        final(caster).exclude_from_ground == old(caster).exclude_from_ground,
        final(caster).unstable_ground_angle == old(caster).unstable_ground_angle,
        final(caster).max_ground_angle == old(caster).max_ground_angle,
        final(caster).skip_ground_check_timer == settled_timer(*old(caster), touching, dt),
        final(viable_ground).0 == settled_cache(
            *old(caster),
            old(viable_ground).0,
            only_viable(next_viable_ground),
            dt,
        ),
        final(ground).0 == settled_cache(*old(caster), old(ground).0, next_ground, dt),
        old(caster).wf() ==> final(caster).wf(),
{
    if dt.raw == 0 {
        return ;
    }
    if caster.casting() {
        let accepted = match next_viable_ground {
            Some(found) => if found.viable {
                Some(found)
            } else {
                None
            },
            None => None,
        };
        viable_ground.0.update(accepted);
        ground.0.update(next_ground);
    } else {
        viable_ground.0.into_last();
        ground.0.into_last();
        caster.skip_ground_check_timer = caster.skip_ground_check_timer.minus(dt).max(
            Fixed::zero(),
        );
    }
    if touching {
        caster.skip_ground_check_timer = Fixed::zero();
    }
}

/// How often a tick looks for the ground before it gives up.
pub const CAST_ITERATIONS: usize = 5;

/// Whether the engine may have the contact `cast` with the collider `collider` taken for the
/// ground `ground`: the ground belongs to the body of the collider, and moves as the engine
/// reports of that body.
pub open spec fn may_be_ground_of<B: PhysicsBackend>(
    ctx: &B,
    collider: Entity,
    cast: CastResult,
    caster: GroundCaster,
    ground: Ground,
) -> bool {
    exists|body: Entity, velocity: ControllerVelocity, center_of_mass: Vec3|
        #![trigger may_own(ctx, collider, body, velocity, center_of_mass)]
        may_own(ctx, collider, body, velocity, center_of_mass) && ground == Ground::spec_from_cast(
            body,
            cast,
            caster,
            velocity,
            center_of_mass,
        )
}

/// Whether the engine may have the hit `hit` taken for the ground `ground`; no hit is no
/// ground.
pub open spec fn may_be_ground<B: PhysicsBackend>(
    ctx: &B,
    hit: Option<(Entity, CastResult)>,
    caster: GroundCaster,
    ground: Option<Ground>,
) -> bool {
    match hit {
        None => ground is None,
        Some(contact) => match ground {
            None => false,
            Some(found) => may_be_ground_of(ctx, contact.0, contact.1, caster, found),
        },
    }
}

/// The cast with which a caster starts to look for the ground under the body `entity`: from
/// `cast_position` against the up vector, as far as the caster casts, past the body itself
/// and what the caster leaves out.
pub open spec fn first_cast<'a>(
    entity: Entity,
    cast_position: Vec3,
    gravity: Gravity,
    caster: &'a GroundCaster,
) -> GroundCastParams<'a> {
    GroundCastParams {
        position: cast_position,
        direction: gravity.up_vector.spec_neg(),
        max_toi: caster.cast_length,
        filter: QueryFilter { caster: entity, exclude: &caster.exclude_from_ground },
    }
}

/// Whether the engine may have a caster that looks for the ground under the body `entity`
/// find `found`: up to five attempts at ground no steeper than `limit`, each as the casting
/// has it, and then the body that the hit belongs to.
pub open spec fn may_look<B: PhysicsBackend>(
    ctx: &B,
    entity: Entity,
    cast_position: Vec3,
    gravity: Gravity,
    caster: &GroundCaster,
    limit: Option<Fixed>,
    found: Option<Ground>,
) -> bool {
    exists|end: GroundCastParams, hit: Option<(Entity, CastResult)>|
        #![trigger first_cast(entity, cast_position, gravity, caster).may_find(
            ctx,
            gravity.up_vector,
            limit,
            CAST_ITERATIONS as nat,
            end,
            hit,
        )]
        first_cast(entity, cast_position, gravity, caster).may_find(
            ctx,
            gravity.up_vector,
            limit,
            CAST_ITERATIONS as nat,
            end,
            hit,
        ) && may_be_ground(ctx, hit, *caster, found)
}

/// Whether the engine may have a tick of `dt` lead a caster with the caches `ground` and
/// `viable_ground` to the skip timer `timer` and the caches `ground_after` and
/// `viable_after`: while it casts, it looks for ground that it can stand on and for any
/// ground; the engine says whether the body touches anything; and what was found is taken in
/// as `settle_ground` has it.
pub open spec fn may_find_ground<B: PhysicsBackend>(
    ctx: &B,
    entity: Entity,
    cast_position: Vec3,
    gravity: Gravity,
    caster: &GroundCaster,
    ground: GroundCache,
    viable_ground: GroundCache,
    dt: Fixed,
    timer: Fixed,
    ground_after: GroundCache,
    viable_after: GroundCache,
) -> bool {
    if dt.raw == 0 {
        timer == caster.skip_ground_check_timer && ground_after == ground && viable_after
            == viable_ground
    } else {
        exists|next_viable: Option<Ground>, next: Option<Ground>, touching: bool|
            #![trigger
                settled_cache(*caster, viable_ground, only_viable(next_viable), dt),
                settled_cache(*caster, ground, next, dt),
                may_be_touching(ctx, entity, touching),
            ]
            {
                &&& caster.spec_casting() ==> may_look(
                    ctx,
                    entity,
                    cast_position,
                    gravity,
                    caster,
                    Some(caster.max_ground_angle),
                    next_viable,
                ) && may_look(ctx, entity, cast_position, gravity, caster, None, next)
                &&& may_be_touching(ctx, entity, touching)
                &&& timer == settled_timer(*caster, touching, dt)
                &&& viable_after == settled_cache(
                    *caster,
                    viable_ground,
                    only_viable(next_viable),
                    dt,
                )
                &&& ground_after == settled_cache(*caster, ground, next, dt)
            }
    }
}

/// The ground that a cast found: the body that the collider belongs to, with the velocity
/// and the center of mass that the engine reports for it.
pub fn ground_of_hit<B: PhysicsBackend>(
    ctx: &B,
    collider: Entity,
    cast: CastResult,
    caster: &GroundCaster,
) -> (ground: Ground)
    ensures
        may_be_ground_of(ctx, collider, cast, *caster, ground),
        ground.cast == cast,
        ground.viable == (cast.normal != Vec3::spec_zero() && cast.spec_viable(
            caster.max_ground_angle,
        )),
        ground.stable == (ground.viable && cast.spec_viable(caster.unstable_ground_angle)),
{
    let ground_entity = ctx.rigid_body(collider);
    let velocity = ctx.velocity(ground_entity);
    let center_of_mass = ctx.center_of_mass(ground_entity);
    let ground = Ground::from_cast(ground_entity, cast, caster, velocity, center_of_mass);
    assert(may_own(ctx, collider, ground_entity, velocity, center_of_mass));
    ground
}

/// Looks for the ground under the body `entity`, and remembers what it finds.
///
/// Nothing happens in a tick of no duration. While the caster is casting, the shape is cast
/// from `cast_position` against the up vector, first for ground that the controller can stand
/// on and then for any ground, and both caches take in what was found; a miss archives what
/// was current. While it is not casting, nothing is looked for, which counts as a miss, and
/// the skip timer runs down. A body that touches anything casts again at the next tick.
pub fn find_ground<B: PhysicsBackend>(
    entity: Entity,
    cast_position: Vec3,
    gravity: &Gravity,
    caster: &mut GroundCaster,
    ground: &mut GroundCast,
    viable_ground: &mut ViableGroundCast,
    ctx: &B,
    dt: Fixed,
)
    ensures
        may_find_ground(
            ctx,
            entity,
            cast_position,
            *gravity,
            old(caster),
            old(ground).0,
            old(viable_ground).0,
            dt,
            final(caster).skip_ground_check_timer,
            final(ground).0,
            final(viable_ground).0,
        ),
        final(caster).skip_ground_check_override == old(caster).skip_ground_check_override,
        final(caster).cast_origin == old(caster).cast_origin,
        final(caster).cast_length == old(caster).cast_length,
        final(caster).exclude_from_ground == old(caster).exclude_from_ground,
        final(caster).unstable_ground_angle == old(caster).unstable_ground_angle,
        final(caster).max_ground_angle == old(caster).max_ground_angle,
        old(caster).wf() ==> final(caster).wf(),
        dt.raw != 0 ==> (final(viable_ground).0 matches GroundCache::Ground(found)
            ==> found.viable),
{
    if dt.raw == 0 {
        return ;
    }
    let mut next_viable_ground: Option<Ground> = None;
    let mut next_ground: Option<Ground> = None;
    if caster.casting() {
        let filter = QueryFilter { caster: entity, exclude: &caster.exclude_from_ground };
        let cast_direction = gravity.up_vector.neg();

        let mut viable_params = GroundCastParams {
            position: cast_position,
            direction: cast_direction,
            max_toi: caster.cast_length,
            filter,
        };
        let mut any_params = GroundCastParams {
            position: cast_position,
            direction: cast_direction,
            max_toi: caster.cast_length,
            filter,
        };
        assert(viable_params == first_cast(entity, cast_position, *gravity, caster));
        assert(any_params == first_cast(entity, cast_position, *gravity, caster));

        let viable_hit = viable_params.viable_cast_iters(
            ctx,
            caster.max_ground_angle,
            gravity.up_vector,
            CAST_ITERATIONS,
        );
        next_viable_ground = match viable_hit {
            Some((collider, cast)) => Some(ground_of_hit(ctx, collider, cast, caster)),
            None => None,
        };
        assert(may_look(
            ctx,
            entity,
            cast_position,
            *gravity,
            caster,
            Some(caster.max_ground_angle),
            next_viable_ground,
        )) by {
            assert(first_cast(entity, cast_position, *gravity, caster).may_find(
                ctx,
                gravity.up_vector,
                Some(caster.max_ground_angle),
                CAST_ITERATIONS as nat,
                viable_params,
                viable_hit,
            ));
        }
        let any_hit = any_params.cast_iters(ctx, gravity.up_vector, CAST_ITERATIONS);
        next_ground = match any_hit {
            Some((collider, cast)) => Some(ground_of_hit(ctx, collider, cast, caster)),
            None => None,
        };
        assert(may_look(ctx, entity, cast_position, *gravity, caster, None, next_ground)) by {
            assert(first_cast(entity, cast_position, *gravity, caster).may_find(
                ctx,
                gravity.up_vector,
                None,
                CAST_ITERATIONS as nat,
                any_params,
                any_hit,
            ));
        }
    }
    // A body that has hit something gets back up at once.
    let touching = ctx.entity_has_contacts(entity);
    assert(may_be_touching(ctx, entity, touching));
    settle_ground(caster, ground, viable_ground, next_viable_ground, next_ground, touching, dt);
}

/// The band inside which the body counts as grounded: the offsets from the float distance
/// that are tolerated, given how fast the body moves along the up vector. A body that rises
/// faster than the upper offset has the upper end moved up by its speed; one that falls
/// faster than the lower offset has the lower end moved down by its speed.
pub open spec fn grounded_band(up_velocity: Fixed, min_offset: Fixed, max_offset: Fixed) -> (
    Fixed,
    Fixed,
) {
    let max = if up_velocity.raw > max_offset.raw {
        max_offset.spec_plus(up_velocity)
    } else {
        max_offset
    };
    let min = if up_velocity.raw < min_offset.raw {
        min_offset.spec_plus(up_velocity)
    } else {
        min_offset
    };
    (min, max)
}

/// Whether a body whose distance to the ground falls short of the float distance by `offset`
/// counts as grounded.
pub open spec fn within_grounded_band(
    offset: Fixed,
    up_velocity: Fixed,
    min_offset: Fixed,
    max_offset: Fixed,
) -> bool {
    let band = grounded_band(up_velocity, min_offset, max_offset);
    band.0.raw <= offset.raw <= band.1.raw
}

/// How far the body's distance to the ground falls short of the float distance: the float
/// distance less the height of the body over the contact point, both measured along the up
/// vector.
pub open spec fn float_offset(translation: Vec3, up_vector: Vec3, float: Float, ground: Ground) -> Fixed {
    float.distance.spec_minus(
        translation.spec_dot(up_vector).spec_minus(ground.cast.point.spec_dot(up_vector)),
    )
}

/// Decides whether the body at `translation` counts as standing on the ground: there is
/// current viable ground, and the offset lies inside the tolerated band.
pub fn determine_groundedness(
    translation: Vec3,
    gravity: &Gravity,
    float: &Float,
    viable_ground: &ViableGroundCast,
    velocity: &ControllerVelocity,
    grounded: &mut Grounded,
)
    ensures
        final(grounded).0 == match viable_ground.0.spec_current() {
            Some(ground) => within_grounded_band(
                float_offset(translation, gravity.up_vector, *float, ground),
                velocity.linear.spec_dot(gravity.up_vector),
                float.min_offset,
                float.max_offset,
            ),
            None => false,
        },
{
    grounded.0 = false;
    if let Some(ground) = viable_ground.0.current() {
        let up_velocity = velocity.linear.dot(gravity.up_vector);
        let updated_toi = translation.dot(gravity.up_vector).minus(
            ground.cast.point.dot(gravity.up_vector),
        );
        let offset = float.distance.minus(updated_toi);
        let max = if up_velocity.raw > float.max_offset.raw {
            float.max_offset.plus(up_velocity)
        } else {
            float.max_offset
        };
        let min = if up_velocity.raw < float.min_offset.raw {
            float.min_offset.plus(up_velocity)
        } else {
            float.min_offset
        };
        grounded.0 = offset.raw >= min.raw && offset.raw <= max.raw;
    }
}


/// A cast that misses takes nothing away from what was found last: the ground is no longer
/// current, and the last ground is what it was.
pub proof fn law_miss_keeps_last_ground(cache: GroundCache)
    ensures
        cache.spec_update(None).spec_current() is None,
        cache.spec_update(None).spec_last() == cache.spec_last(),
        !cache.spec_update(None).spec_grounded(),
{
}

/// Ground that is found is both current and last, and grounds the controller exactly where
/// it is viable.
pub proof fn law_found_ground_is_current(cache: GroundCache, ground: Ground)
    ensures
        cache.spec_update(Some(ground)).spec_current() == Some(ground),
        cache.spec_update(Some(ground)).spec_last() == Some(ground),
        cache.spec_update(Some(ground)).spec_grounded() == ground.viable,
{
}

/// Viability is monotonic in the angle: a surface that is no steeper than a viable one is
/// viable too, and one that is steeper than the threshold never is.
pub proof fn law_viability_monotonic(steep: CastResult, shallow: CastResult, max_angle: Fixed)
    requires
        shallow.angle.spec_abs().raw <= steep.angle.spec_abs().raw,
    ensures
        steep.spec_viable(max_angle) ==> shallow.spec_viable(max_angle),
        !(steep.angle.raw <= max_angle.raw) ==> !steep.spec_viable(max_angle),
{
}

/// The grounded band is only ever widened, and by no more than the speed along the up vector:
/// an offset inside the configured band is inside the band at every speed, and an offset
/// inside the band lies within the configured offsets moved out by that speed.
pub proof fn law_grounded_band_bounded(
    offset: Fixed,
    up_velocity: Fixed,
    min_offset: Fixed,
    max_offset: Fixed,
)
    requires
        min_offset.raw <= 0 <= max_offset.raw,
    ensures
        min_offset.raw <= offset.raw <= max_offset.raw ==> within_grounded_band(
            offset,
            up_velocity,
            min_offset,
            max_offset,
        ),
        within_grounded_band(offset, up_velocity, min_offset, max_offset) ==> {
            &&& offset.raw <= max_offset.raw + if up_velocity.raw > 0 {
                up_velocity.raw as int
            } else {
                0
            }
            &&& offset.raw >= min_offset.raw + if up_velocity.raw < 0 {
                up_velocity.raw as int
            } else {
                0
            }
        },
{
}

/// The grounded band treats rising and falling alike: mirroring the offset, the speed and the
/// configured offsets about zero gives the same answer.
pub proof fn law_grounded_band_symmetric(
    offset: Fixed,
    up_velocity: Fixed,
    min_offset: Fixed,
    max_offset: Fixed,
)
    requires
        offset.raw > i64::MIN,
        up_velocity.raw > i64::MIN,
        min_offset.raw > i64::MIN,
        max_offset.raw > i64::MIN,
    ensures
        within_grounded_band(offset, up_velocity, min_offset, max_offset) == within_grounded_band(
            offset.spec_neg(),
            up_velocity.spec_neg(),
            max_offset.spec_neg(),
            min_offset.spec_neg(),
        ),
{
}

} // verus!
