//! What a physics engine answers when it is asked to cast a ray or a shape.

use vstd::prelude::*;
use bevy::utils::HashSet;
use crate::fixed::Fixed;
use crate::physics::ControllerVelocity;
use crate::vec3::Vec3;

verus! {

/// The identity of a body or a collider in the host's world, as 64 bits.
#[derive(Clone, Copy, Debug, PartialEq, Eq, Structural)]
pub struct Entity(pub u64);

/// The first thing that a ray met.
#[derive(Clone, Copy, Debug, PartialEq, Eq, Structural)]
pub struct RayCastResult {
    /// The collider that was hit.
    pub entity: Entity,
    /// How far along the ray the hit lies.
    pub toi: Fixed,
    /// The surface normal at the hit.
    pub normal: Vec3,
    /// Where the hit lies, in world space.
    pub point: Vec3,
}

/// The first thing that a moving shape met.
#[derive(Clone, Copy, Debug, PartialEq, Eq, Structural)]
pub struct ShapeCastResult {
    /// The collider that was hit.
    pub entity: Entity,
    /// How far the shape travelled before it touched.
    pub toi: Fixed,
    /// The normal on the cast shape at the contact.
    pub normal1: Vec3,
    /// The normal on the collider that was hit.
    pub normal2: Vec3,
    /// The contact point on the cast shape.
    pub point1: Vec3,
    /// The contact point on the collider that was hit.
    pub point2: Vec3,
    /// Whether the shape already overlapped the collider where the cast began; the normals and
    /// points mean nothing then.
    pub penetrating: bool,
}

/// A set of colliders, held by the bits of their identity in a hash set of the host's
/// engine.
#[verifier::external_body]
pub struct ExcludedSet {
    set: HashSet<u64>,
}

/// The identities that the set holds.
pub uninterp spec fn excluded_ids(set: ExcludedSet) -> Set<u64>;

/// `HashSet::default` of the engine's hash set: the set that comes back holds nothing.
#[verifier::external_body]
fn empty_set() -> (set: ExcludedSet)
    ensures
        excluded_ids(set) == Set::<u64>::empty(),
{
    ExcludedSet { set: HashSet::default() }
}

/// `HashSet::insert` of the engine's hash set: afterwards the set holds what it held and
/// `id`; the answer is whether `id` is new to it.
#[verifier::external_body]
fn set_insert(set: &mut ExcludedSet, id: u64) -> (added: bool)
    ensures
        excluded_ids(*final(set)) == excluded_ids(*old(set)).insert(id),
        added == !excluded_ids(*old(set)).contains(id),
{
    set.set.insert(id)
}

/// `HashSet::contains` of the engine's hash set: the answer is whether the set holds `id`.
#[verifier::external_body]
fn set_contains(set: &ExcludedSet, id: u64) -> (found: bool)
    ensures
        found == excluded_ids(*set).contains(id),
{
    set.set.contains(&id)
}

impl ExcludedSet {
    /// A set that holds nothing.
    pub fn new() -> (set: Self)
        ensures
            excluded_ids(set) == Set::<u64>::empty(),
    {
        empty_set()
    }

    /// Puts the collider `collider` into the set, and says whether it was new to it.
    pub fn insert(&mut self, collider: Entity) -> (added: bool)
        ensures
            excluded_ids(*final(self)) == excluded_ids(*old(self)).insert(collider.0),
            added == !excluded_ids(*old(self)).contains(collider.0),
    {
        set_insert(self, collider.0)
    }

    /// Whether the set holds the collider `collider`.
    pub fn contains(&self, collider: Entity) -> (found: bool)
        ensures
            found == excluded_ids(*self).contains(collider.0),
    {
        set_contains(self, collider.0)
    }
}

impl Default for ExcludedSet {
    fn default() -> (set: Self)
        ensures
            excluded_ids(set) == Set::<u64>::empty(),
    {
        ExcludedSet::new()
    }
}

/// Which colliders a query leaves out.
#[derive(Clone, Copy)]
pub struct QueryFilter<'a> {
    /// The body on whose behalf the query is made.
    pub caster: Entity,
    /// The colliders to leave out.
    pub exclude: &'a ExcludedSet,
}

impl<'a> QueryFilter<'a> {
    /// Whether a query may report `collider`: a body never finds itself, and never what the
    /// filter leaves out.
    pub open spec fn spec_admits(&self, collider: Entity) -> bool {
        collider != self.caster && !excluded_ids(*self.exclude).contains(collider.0)
    }

    /// Whether a query may report `collider`: a body never finds itself, and never what the
    /// filter leaves out.
    #[verifier::when_used_as_spec(spec_admits)]
    pub fn admits(&self, collider: Entity) -> (admitted: bool)
        ensures
            admitted == self.spec_admits(collider),
    {
        collider.0 != self.caster.0 && !self.exclude.contains(collider)
    }
}

/// What the controller asks of the physics engine, and of the host's mathematics, in the
/// course of a tick. Nothing is taken for granted of the answers: the controller checks what
/// it relies on.
pub trait PhysicsBackend {
    /// Casts the controller's shape from `position` along `direction`, no farther than
    /// `max_toi`, past everything that `filter` does not admit.
    fn shape_cast(
        &self,
        position: Vec3,
        direction: Vec3,
        max_toi: Fixed,
        filter: &QueryFilter,
    ) -> Option<ShapeCastResult>;

    /// Casts a ray from `origin` along `direction`, no farther than `max_toi`, past everything
    /// that `filter` does not admit.
    fn ray_cast(
        &self,
        origin: Vec3,
        direction: Vec3,
        max_toi: Fixed,
        filter: &QueryFilter,
    ) -> Option<RayCastResult>;

    /// The normals, in world space, of the contacts between the controller's shape at
    /// `position` and the colliders around it that `filter` admits.
    fn contact_manifolds(&self, position: Vec3, filter: &QueryFilter) -> Vec<Vec3>;

    /// How far the surface of the controller's shape lies from its origin along `direction`.
    fn shape_extent(&self, direction: Vec3) -> Fixed;

    /// Whether `entity` touches any collider.
    fn entity_has_contacts(&self, entity: Entity) -> bool;

    /// The rigid body that the collider `collider` belongs to; the collider itself where it
    /// belongs to none.
    fn rigid_body(&self, collider: Entity) -> Entity;

    /// The velocity of the body `entity`; zero where it has none.
    fn velocity(&self, entity: Entity) -> ControllerVelocity;

    /// The center of mass of the body `entity`, in world space.
    fn center_of_mass(&self, entity: Entity) -> Vec3;

    /// Two directions of length one at right angles to `direction` and to each other.
    fn orthonormal_pair(&self, direction: Vec3) -> (Vec3, Vec3);

    /// The angle between the two vectors, in radians.
    fn angle_between(&self, a: Vec3, b: Vec3) -> Fixed;
}

/// Whether the engine may answer `hit` when it is asked to cast the shape so.
pub open spec fn may_cast_shape<B: PhysicsBackend>(
    ctx: &B,
    position: Vec3,
    direction: Vec3,
    max_toi: Fixed,
    filter: &QueryFilter,
    hit: Option<ShapeCastResult>,
) -> bool {
    call_ensures(B::shape_cast, (ctx, position, direction, max_toi, filter), hit)
}

/// Whether the engine may answer `hit` when it is asked to cast a ray so.
pub open spec fn may_cast_ray<B: PhysicsBackend>(
    ctx: &B,
    origin: Vec3,
    direction: Vec3,
    max_toi: Fixed,
    filter: &QueryFilter,
    hit: Option<RayCastResult>,
) -> bool {
    call_ensures(B::ray_cast, (ctx, origin, direction, max_toi, filter), hit)
}

/// Whether the engine may report the contact normals `normals` for the shape at `position`.
pub open spec fn may_touch<B: PhysicsBackend>(
    ctx: &B,
    position: Vec3,
    filter: &QueryFilter,
    normals: Vec<Vec3>,
) -> bool {
    call_ensures(B::contact_manifolds, (ctx, position, filter), normals)
}

/// Whether the engine may report `extent` as the extent of the shape along `direction`.
pub open spec fn may_extend<B: PhysicsBackend>(ctx: &B, direction: Vec3, extent: Fixed) -> bool {
    call_ensures(B::shape_extent, (ctx, direction), extent)
}

/// Whether the host may give `pair` as the two directions at right angles to `direction`.
pub open spec fn may_span<B: PhysicsBackend>(ctx: &B, direction: Vec3, pair: (Vec3, Vec3)) -> bool {
    call_ensures(B::orthonormal_pair, (ctx, direction), pair)
}

/// Whether the host may measure `angle` between the two vectors.
pub open spec fn may_measure<B: PhysicsBackend>(ctx: &B, a: Vec3, b: Vec3, angle: Fixed) -> bool {
    call_ensures(B::angle_between, (ctx, a, b), angle)
}

/// Whether the engine may report `body` as the rigid body of the collider `collider`, moving
/// with `velocity` about the center of mass `center_of_mass`.
pub open spec fn may_own<B: PhysicsBackend>(
    ctx: &B,
    collider: Entity,
    body: Entity,
    velocity: ControllerVelocity,
    center_of_mass: Vec3,
) -> bool {
    &&& call_ensures(B::rigid_body, (ctx, collider), body)
    &&& call_ensures(B::velocity, (ctx, body), velocity)
    &&& call_ensures(B::center_of_mass, (ctx, body), center_of_mass)
}

/// Whether the engine may report `center_of_mass` as the center of mass of the body `body`.
pub open spec fn may_center<B: PhysicsBackend>(ctx: &B, body: Entity, center_of_mass: Vec3) -> bool {
    call_ensures(B::center_of_mass, (ctx, body), center_of_mass)
}

/// Whether the engine may say so of whether `entity` touches anything.
pub open spec fn may_be_touching<B: PhysicsBackend>(ctx: &B, entity: Entity, touching: bool) -> bool {
    call_ensures(B::entity_has_contacts, (ctx, entity), touching)
}

} // verus!
