//! Looking for the ground: casts that get out of overlaps, slide down slopes that are too
//! steep, and rebuild the surface normal from rays around the contact.

use vstd::prelude::*;
use crate::controller::ground::{CastResult, FUDGE};
use crate::fixed::Fixed;
use crate::query::{Entity, PhysicsBackend, QueryFilter, RayCastResult, ShapeCastResult,
    may_cast_ray, may_cast_shape, may_extend, may_measure, may_span, may_touch};
use crate::vec3::Vec3;

verus! {

/// How often a cast that begins inside a collider is moved out and tried again.
pub const PENETRATION_ITERATIONS: usize = 12;

/// How many rays are cast around a contact to rebuild its normal.
pub const SAMPLES: usize = 5;

/// Where and how far to cast.
pub struct GroundCastParams<'f> {
    /// Where the cast starts, in world space.
    pub position: Vec3,
    /// The direction of the cast. Meant to have length one.
    pub direction: Vec3,
    /// How far to cast at most.
    pub max_toi: Fixed,
    /// Which colliders the cast leaves out.
    pub filter: QueryFilter<'f>,
}

/// What became of a shape cast.
#[derive(Clone, Copy, Debug, PartialEq, Eq, Structural)]
pub enum ShapeOutcome {
    /// The cast met nothing.
    Missed,
    /// The cast began inside a collider.
    Penetrating,
    /// The cast met the collider `entity` at `cast`.
    Clear { entity: Entity, cast: CastResult },
}

impl ShapeOutcome {
    /// Whether the cast began inside a collider.
    pub fn overlapping(&self) -> (overlapping: bool)
        ensures
            overlapping == (*self is Penetrating),
    {
        match self {
            ShapeOutcome::Penetrating => true,
            _ => false,
        }
    }
}

/// The small correction along a contact normal that moves a cast out of an overlap.
pub open spec fn correction(normal: Vec3) -> Vec3 {
    normal.spec_scale(Fixed { raw: FUDGE })
}

/// `position` moved by the correction for each of the first `count` normals in turn.
pub open spec fn nudged(position: Vec3, normals: Seq<Vec3>, count: nat) -> Vec3
    decreases count,
{
    if count == 0 {
        position
    } else {
        nudged(position, normals, (count - 1) as nat).spec_plus(
            correction(normals[count as int - 1]),
        )
    }
}

/// What a shape cast that reported `hit` amounts to: nothing where there is no hit, an overlap
/// where the shape began inside the collider or did not move at all, and else the contact as
/// seen from the cast shape.
pub open spec fn shape_outcome(hit: Option<ShapeCastResult>) -> ShapeOutcome {
    match hit {
        None => ShapeOutcome::Missed,
        Some(toi) => if toi.penetrating || toi.toi.raw <= 0 {
            ShapeOutcome::Penetrating
        } else {
            ShapeOutcome::Clear {
                entity: toi.entity,
                cast: CastResult {
                    toi: toi.toi,
                    normal: toi.normal1,
                    point: toi.point1,
                    angle: Fixed::spec_zero(),
                },
            }
        },
    }
}

/// The offset, as a multiple of the slack, of the ray with the given index from the point
/// above the contact: the four corners of a square in the plane of `x` and `z`, and then the
/// point itself.
pub open spec fn sample_offset(index: int, x: Vec3, z: Vec3) -> Vec3 {
    if index == 0 {
        x.spec_neg().spec_plus(z)
    } else if index == 1 {
        x.spec_neg().spec_minus(z)
    } else if index == 2 {
        x.spec_plus(z)
    } else if index == 3 {
        x.spec_minus(z)
    } else {
        Vec3::spec_zero()
    }
}

/// Whether the ray hit `hit` tells of the surface that `cast` found: it lies ahead of the
/// ray's origin, has a normal, and lands within twice the slack of the contact.
pub open spec fn sample_accepted(cast: CastResult, hit: RayCastResult) -> bool {
    &&& hit.toi.raw > 0
    &&& hit.normal != Vec3::spec_zero()
    &&& hit.point.spec_distance(cast.point).raw < 2 * FUDGE
}

/// The normals of the first `count` ray hits that are accepted, each weighted by how well it
/// lines up with the up vector, summed; and the sum of the weights.
pub open spec fn weighted_normals(
    cast: CastResult,
    hits: Seq<Option<RayCastResult>>,
    up_vector: Vec3,
    count: nat,
) -> (Vec3, Fixed)
    decreases count,
{
    if count == 0 {
        (Vec3::spec_zero(), Fixed::spec_zero())
    } else {
        let before = weighted_normals(cast, hits, up_vector, (count - 1) as nat);
        match hits[count as int - 1] {
            Some(hit) => if sample_accepted(cast, hit) {
                let alignment = hit.normal.spec_dot(up_vector).spec_abs();
                (
                    before.0.spec_plus(hit.normal.spec_scale(alignment)),
                    before.1.spec_plus(alignment),
                )
            } else {
                before
            },
            None => before,
        }
    }
}

/// The normal that the ray hits around a contact add up to: the weighted mean of the accepted
/// normals, and nothing where that mean is zero.
pub open spec fn averaged_normal(
    cast: CastResult,
    hits: Seq<Option<RayCastResult>>,
    up_vector: Vec3,
) -> Option<Vec3> {
    let summed = weighted_normals(cast, hits, up_vector, hits.len());
    let mean = summed.0.spec_shrink(summed.1);
    if mean == Vec3::spec_zero() {
        None
    } else {
        Some(mean)
    }
}

/// What a shape cast found, where an overlap counts as finding nothing.
pub open spec fn clear_hit(outcome: ShapeOutcome) -> Option<(Entity, CastResult)> {
    match outcome {
        ShapeOutcome::Clear { entity, cast } => Some((entity, cast)),
        _ => None,
    }
}

/// What a ray found, as a cast result whose angle is still to be measured.
pub open spec fn ray_hit(hit: Option<RayCastResult>) -> Option<(Entity, CastResult)> {
    match hit {
        Some(found) => Some(
            (
                found.entity,
                CastResult {
                    toi: found.toi,
                    normal: found.normal,
                    point: found.point,
                    angle: Fixed::spec_zero(),
                },
            ),
        ),
        None => None,
    }
}

/// What a shape cast that reported `hit` amounts to: nothing where there is no hit, an overlap
/// where the shape began inside the collider or did not move at all, and else the contact as
/// seen from the cast shape.
pub fn classify_shape_hit(hit: Option<ShapeCastResult>) -> (outcome: ShapeOutcome)
    ensures
        outcome == shape_outcome(hit),
{
    match hit {
        None => ShapeOutcome::Missed,
        Some(toi) => {
            if toi.penetrating || toi.toi.raw <= 0 {
                ShapeOutcome::Penetrating
            } else {
                ShapeOutcome::Clear {
                    entity: toi.entity,
                    cast: CastResult {
                        toi: toi.toi,
                        normal: toi.normal1,
                        point: toi.point1,
                        angle: Fixed::zero(),
                    },
                }
            }
        },
    }
}

/// The normal that the ray hits around a contact add up to: the weighted mean of the accepted
/// normals, and nothing where that mean is zero.
pub fn average_normals(cast: CastResult, hits: &Vec<Option<RayCastResult>>, up_vector: Vec3) -> (normal:
    Option<Vec3>)
    ensures
        normal == averaged_normal(cast, hits@, up_vector),
        normal matches Some(found) ==> found != Vec3::spec_zero(),
{
    let mut sum = Vec3::zero();
    let mut weights = Fixed::zero();
    let mut index: usize = 0;
    while index < hits.len()
        invariant
            index <= hits.len(),
            (sum, weights) == weighted_normals(cast, hits@, up_vector, index as nat),
        decreases hits.len() - index,
    {
        if let Some(hit) = hits[index] {
            if hit.toi.raw > 0 && !hit.normal.is_zero() && hit.point.distance(cast.point).raw < 2
                * FUDGE {
                let alignment = hit.normal.dot(up_vector).abs();
                sum = sum.plus(hit.normal.scale(alignment));
                weights = weights.plus(alignment);
            }
        }
        index = index + 1;
    }
    let weighted_average = sum.shrink(weights);
    if weighted_average.is_zero() {
        None
    } else {
        Some(weighted_average)
    }
}

impl<'f> GroundCastParams<'f> {
    /// The parameters after the cast has slid to where it hit and turned downhill: it starts
    /// where it ended, points down the slope, and has what is left of its length.
    pub open spec fn spec_slide(self, cast: CastResult, up_vector: Vec3) -> GroundCastParams<'f> {
        GroundCastParams {
            position: self.position.spec_plus(self.direction.spec_scale(cast.toi)),
            direction: cast.spec_down_tangent(up_vector).spec_normalize_or_zero(),
            max_toi: self.max_toi.spec_minus(cast.toi).spec_max(Fixed::spec_zero()),
            filter: self.filter,
        }
    }

    /// Where the fallback ray starts: on the surface of the shape, `extent` along the cast
    /// direction from the shape's origin, so that it hits what the shape would have hit.
    pub open spec fn spec_ray_origin(&self, extent: Fixed) -> Vec3 {
        self.position.spec_plus(self.direction.spec_scale(extent))
    }

    /// Where the ray with the given index starts: above the contact, at the height from
    /// which the shape was cast, moved aside by the slack along its offset.
    pub open spec fn spec_sample_origin(
        &self,
        cast: CastResult,
        index: int,
        x: Vec3,
        z: Vec3,
    ) -> Vec3 {
        cast.point.spec_plus(self.direction.spec_neg().spec_scale(cast.toi)).spec_minus(
            sample_offset(index, x, z).spec_scale(Fixed { raw: FUDGE }),
        )
    }

    /// Moves the start of the cast by the correction for each of the contact normals in
    /// turn.
    pub fn nudge(&mut self, normals: &Vec<Vec3>)
        ensures
            final(self).position == nudged(old(self).position, normals@, normals.len() as nat),
            final(self).direction == old(self).direction,
            final(self).max_toi == old(self).max_toi,
            final(self).filter == old(self).filter,
    {
        let mut index: usize = 0;
        while index < normals.len()
            invariant
                index <= normals.len(),
                self.position == nudged(old(self).position, normals@, index as nat),
                self.direction == old(self).direction,
                self.max_toi == old(self).max_toi,
                self.filter == old(self).filter,
            decreases normals.len() - index,
        {
            let correction = normals[index].scale(Fixed::from_raw(FUDGE));
            self.position = self.position.plus(correction);
            index = index + 1;
        }
    }

    /// Slides the cast to where it hit and turns it downhill, so that the next cast finds
    /// ground that lies right below a slope that is too steep.
    pub fn slide(&mut self, cast: CastResult, up_vector: Vec3)
        ensures
            *final(self) == old(self).spec_slide(cast, up_vector),
    {
        let projected_position = self.position.plus(self.direction.scale(cast.toi));
        let down_tangent = cast.down_tangent(up_vector);
        self.direction = down_tangent.normalize_or_zero();
        self.position = projected_position;
        self.max_toi = self.max_toi.minus(cast.toi).max(Fixed::zero());
    }

    /// Where the fallback ray starts: on the surface of the shape, `extent` along the cast
    /// direction from the shape's origin, so that it hits what the shape would have hit.
    #[verifier::when_used_as_spec(spec_ray_origin)]
    pub fn ray_origin(&self, extent: Fixed) -> (origin: Vec3)
        ensures
            origin == self.spec_ray_origin(extent),
    {
        self.position.plus(self.direction.scale(extent))
    }

    /// Where the ray with the given index starts: above the contact, at the height from
    /// which the shape was cast, moved aside by the slack along its offset.
    pub fn sample_origin(&self, cast: CastResult, index: usize, x: Vec3, z: Vec3) -> (origin: Vec3)
        ensures
            origin == self.spec_sample_origin(cast, index as int, x, z),
    {
        let ray_origin = cast.point.plus(self.direction.neg().scale(cast.toi));
        let sample = if index == 0 {
            x.neg().plus(z)
        } else if index == 1 {
            x.neg().minus(z)
        } else if index == 2 {
            x.plus(z)
        } else if index == 3 {
            x.minus(z)
        } else {
            Vec3::zero()
        };
        ray_origin.minus(sample.scale(Fixed::from_raw(FUDGE)))
    }

    /// Whether the engine may have the cast `self` corrected to start at `position`: it
    /// reports contact normals for the shape where the cast starts, and the corrections for
    /// them, in turn, lead to `position`.
    pub open spec fn may_correct_to<B: PhysicsBackend>(&self, ctx: &B, position: Vec3) -> bool {
        exists|normals: Vec<Vec3>|
            #![trigger may_touch(ctx, self.position, &self.filter, normals)]
            may_touch(ctx, self.position, &self.filter, normals) && position == nudged(
                self.position,
                normals@,
                normals@.len(),
            )
    }

    /// Whether the engine may have the shape cast of `self` find `found`: it answers the cast
    /// with a hit that amounts to that, an overlap counting as nothing.
    pub open spec fn may_find_by_shape<B: PhysicsBackend>(
        &self,
        ctx: &B,
        found: Option<(Entity, CastResult)>,
    ) -> bool {
        exists|hit: Option<ShapeCastResult>|
            #![trigger may_cast_shape(ctx, self.position, self.direction, self.max_toi, &self.filter, hit)]
            may_cast_shape(ctx, self.position, self.direction, self.max_toi, &self.filter, hit)
                && found == clear_hit(shape_outcome(hit))
    }

    /// Whether the engine may have the fallback ray of `self` find `found`: it reports an
    /// extent of the shape along the cast, and answers the ray that starts there with that.
    pub open spec fn may_find_by_ray<B: PhysicsBackend>(
        &self,
        ctx: &B,
        found: Option<(Entity, CastResult)>,
    ) -> bool {
        exists|extent: Fixed, hit: Option<RayCastResult>|
            #![trigger
                may_extend(ctx, self.direction, extent),
                may_cast_ray(
                    ctx,
                    self.spec_ray_origin(extent),
                    self.direction,
                    self.max_toi,
                    &self.filter,
                    hit,
                ),
            ]
            may_extend(ctx, self.direction, extent) && may_cast_ray(
                ctx,
                self.spec_ray_origin(extent),
                self.direction,
                self.max_toi,
                &self.filter,
                hit,
            ) && found == ray_hit(hit)
    }

    /// Whether the engine may have the rays around the contact `cast` rebuild its normal as
    /// `normal`: the host gives two directions across the cast, the engine answers the five
    /// rays that start around the contact, and the answers average to that.
    pub open spec fn may_rebuild<B: PhysicsBackend>(
        &self,
        ctx: &B,
        cast: CastResult,
        up_vector: Vec3,
        normal: Option<Vec3>,
    ) -> bool {
        exists|pair: (Vec3, Vec3), hits: Seq<Option<RayCastResult>>|
            #![trigger may_span(ctx, self.direction, pair), averaged_normal(cast, hits, up_vector)]
            {
                &&& may_span(ctx, self.direction, pair)
                &&& hits.len() == SAMPLES
                &&& forall|i: int|
                    0 <= i < SAMPLES ==> may_cast_ray(
                        ctx,
                        self.spec_sample_origin(cast, i, pair.0, pair.1),
                        self.direction,
                        self.max_toi,
                        &self.filter,
                        #[trigger] hits[i],
                    )
                &&& normal == averaged_normal(cast, hits, up_vector)
            }
    }

    /// Moves the start of the cast out of the colliders that the shape overlaps there: by the
    /// correction for each of the contact normals that the engine reports, in turn.
    pub fn correct_penetrations<B: PhysicsBackend>(&mut self, ctx: &B)
        ensures
            final(self).direction == old(self).direction,
            final(self).max_toi == old(self).max_toi,
            final(self).filter == old(self).filter,
            old(self).may_correct_to(ctx, final(self).position),
    {
        let normals = ctx.contact_manifolds(self.position, &self.filter);
        self.nudge(&normals);
        assert(may_touch(ctx, old(self).position, &old(self).filter, normals));
    }

    /// Casts the shape. An overlap counts as finding nothing.
    pub fn cast_shape<B: PhysicsBackend>(&self, ctx: &B) -> (found: Option<(Entity, CastResult)>)
        ensures
            self.may_find_by_shape(ctx, found),
            found matches Some(hit) ==> hit.1.toi.raw > 0 && hit.1.angle == Fixed::spec_zero(),
    {
        let hit = ctx.shape_cast(self.position, self.direction, self.max_toi, &self.filter);
        assert(may_cast_shape(ctx, self.position, self.direction, self.max_toi, &self.filter, hit));
        match classify_shape_hit(hit) {
            ShapeOutcome::Clear { entity, cast } => Some((entity, cast)),
            _ => None,
        }
    }

    /// Casts a ray from the surface of the shape: the fallback for a shape that finds
    /// nothing, or that cannot be moved out of an overlap. What the ray hits is handed back
    /// as the engine reports it, with the angle still to be measured.
    pub fn cast_ray<B: PhysicsBackend>(&self, ctx: &B) -> (found: Option<(Entity, CastResult)>)
        ensures
            self.may_find_by_ray(ctx, found),
    {
        let extent = ctx.shape_extent(self.direction);
        let ray_pos = self.ray_origin(extent);
        let hit = ctx.ray_cast(ray_pos, self.direction, self.max_toi, &self.filter);
        assert(may_extend(ctx, self.direction, extent) && may_cast_ray(
            ctx,
            self.spec_ray_origin(extent),
            self.direction,
            self.max_toi,
            &self.filter,
            hit,
        ));
        match hit {
            Some(hit) => Some((hit.entity, CastResult::from_ray(hit))),
            None => None,
        }
    }

    /// Rebuilds the normal of the surface that `cast` found from rays around the contact,
    /// which is more reliable than the normal of a shape cast on an edge.
    pub fn sample_normals<B: PhysicsBackend>(
        &self,
        ctx: &B,
        cast: CastResult,
        up_vector: Vec3,
    ) -> (normal: Option<Vec3>)
        ensures
            normal matches Some(found) ==> found != Vec3::spec_zero(),
            self.may_rebuild(ctx, cast, up_vector, normal),
    {
        let pair = ctx.orthonormal_pair(self.direction);
        let mut hits: Vec<Option<RayCastResult>> = Vec::new();
        let mut index: usize = 0;
        while index < SAMPLES
            invariant
                index <= SAMPLES,
                hits.len() == index,
                forall|i: int|
                    0 <= i < index ==> may_cast_ray(
                        ctx,
                        self.spec_sample_origin(cast, i, pair.0, pair.1),
                        self.direction,
                        self.max_toi,
                        &self.filter,
                        #[trigger] hits@[i],
                    ),
            decreases SAMPLES - index,
        {
            let origin = self.sample_origin(cast, index, pair.0, pair.1);
            let hit = ctx.ray_cast(origin, self.direction, self.max_toi, &self.filter);
            hits.push(hit);
            index = index + 1;
        }
        let normal = average_normals(cast, &hits, up_vector);
        assert(may_span(ctx, self.direction, pair) && normal == averaged_normal(
            cast,
            hits@,
            up_vector,
        ));
        normal
    }

    /// Whether the engine may have the shape cast of `self` come to `outcome`.
    pub open spec fn may_meet<B: PhysicsBackend>(&self, ctx: &B, outcome: ShapeOutcome) -> bool {
        exists|hit: Option<ShapeCastResult>|
            #![trigger may_cast_shape(ctx, self.position, self.direction, self.max_toi, &self.filter, hit)]
            may_cast_shape(ctx, self.position, self.direction, self.max_toi, &self.filter, hit)
                && outcome == shape_outcome(hit)
    }

    /// Whether the engine may have the cast `self` get to `end` by being corrected
    /// `corrections` times: each time the shape cast comes to an overlap, and the cast is
    /// moved out of it.
    pub open spec fn may_escape_to<B: PhysicsBackend>(
        &self,
        ctx: &B,
        corrections: nat,
        end: GroundCastParams<'f>,
    ) -> bool
        decreases corrections,
    {
        if corrections == 0 {
            end == *self
        } else {
            exists|before: GroundCastParams<'f>|
                #![trigger before.may_meet(ctx, ShapeOutcome::Penetrating)]
                {
                    &&& self.may_escape_to(ctx, (corrections - 1) as nat, before)
                    &&& before.may_meet(ctx, ShapeOutcome::Penetrating)
                    &&& before.may_correct_to(ctx, end.position)
                    &&& end.direction == before.direction
                    &&& end.max_toi == before.max_toi
                    &&& end.filter == before.filter
                }
        }
    }

    /// Whether the engine may have an attempt that starts with the cast `self` end with the
    /// cast `end` and hit `hit`: the cast is corrected for as long as the shape overlaps,
    /// twelve times at most; where the shape then meets a collider clear of it, that is the
    /// hit; else the hit is what the fallback ray finds.
    pub open spec fn may_hit<B: PhysicsBackend>(
        &self,
        ctx: &B,
        end: GroundCastParams<'f>,
        hit: Option<(Entity, CastResult)>,
    ) -> bool {
        exists|corrections: nat, outcome: ShapeOutcome|
            #![trigger self.may_escape_to(ctx, corrections, end), end.may_meet(ctx, outcome)]
            {
                &&& corrections <= PENETRATION_ITERATIONS
                &&& self.may_escape_to(ctx, corrections, end)
                &&& end.may_meet(ctx, outcome)
                &&& outcome is Penetrating ==> corrections == PENETRATION_ITERATIONS
                &&& match outcome {
                    ShapeOutcome::Clear { entity, cast } => hit == Some((entity, cast)),
                    _ => end.may_find_by_ray(ctx, hit),
                }
            }
    }

    /// Whether the engine may have the hit `hit` of the cast `self` refined to `found`: the
    /// normal is rebuilt from the rays around the contact, and the host measures its angle to
    /// the up vector; where there is no hit, or no normal, nothing is found.
    pub open spec fn may_refine<B: PhysicsBackend>(
        &self,
        ctx: &B,
        hit: Option<(Entity, CastResult)>,
        up_vector: Vec3,
        found: Option<(Entity, CastResult)>,
    ) -> bool {
        match hit {
            None => found is None,
            Some((entity, cast)) => exists|normal: Option<Vec3>|
                #![trigger self.may_rebuild(ctx, cast, up_vector, normal)]
                self.may_rebuild(ctx, cast, up_vector, normal) && match normal {
                    None => found is None,
                    Some(rebuilt) => exists|angle: Fixed|
                        #![trigger may_measure(ctx, rebuilt, up_vector, angle)]
                        may_measure(ctx, rebuilt, up_vector, angle) && found == Some(
                            (
                                entity,
                                CastResult {
                                    toi: cast.toi,
                                    normal: rebuilt,
                                    point: cast.point,
                                    angle,
                                },
                            ),
                        ),
                },
        }
    }

    /// Whether the engine may have an attempt that starts with the cast `self` end with the
    /// cast `end` and find `found`.
    pub open spec fn may_cast<B: PhysicsBackend>(
        &self,
        ctx: &B,
        up_vector: Vec3,
        end: GroundCastParams<'f>,
        found: Option<(Entity, CastResult)>,
    ) -> bool {
        exists|hit: Option<(Entity, CastResult)>|
            #![trigger self.may_hit(ctx, end, hit)]
            self.may_hit(ctx, end, hit) && end.may_refine(ctx, hit, up_vector, found)
    }

    /// Whether the engine may have an attempt at ground no steeper than `limit` that starts
    /// with the cast `self` end with the cast `end` and find `found`. Without a limit any
    /// ground will do; with one, ground that is steeper is not found, and the cast slides
    /// down it.
    pub open spec fn may_attempt<B: PhysicsBackend>(
        &self,
        ctx: &B,
        up_vector: Vec3,
        limit: Option<Fixed>,
        end: GroundCastParams<'f>,
        found: Option<(Entity, CastResult)>,
    ) -> bool {
        match limit {
            None => self.may_cast(ctx, up_vector, end, found),
            Some(max_angle) => exists|
                after: GroundCastParams<'f>,
                any: Option<(Entity, CastResult)>,
            |
                #![trigger self.may_cast(ctx, up_vector, after, any)]
                self.may_cast(ctx, up_vector, after, any) && match any {
                    Some((entity, cast)) => if cast.spec_viable(max_angle) {
                        found == any && end == after
                    } else {
                        found is None && end == after.spec_slide(cast, up_vector)
                    },
                    None => found is None && end == after,
                },
        }
    }

    /// Whether the engine may have `attempts` attempts in a row, the first of which starts
    /// with the cast `self`, find nothing and end with the cast `end`.
    pub open spec fn may_miss<B: PhysicsBackend>(
        &self,
        ctx: &B,
        up_vector: Vec3,
        limit: Option<Fixed>,
        attempts: nat,
        end: GroundCastParams<'f>,
    ) -> bool
        decreases attempts,
    {
        if attempts == 0 {
            end == *self
        } else {
            exists|before: GroundCastParams<'f>|
                #![trigger before.may_attempt(ctx, up_vector, limit, end, None)]
                self.may_miss(ctx, up_vector, limit, (attempts - 1) as nat, before)
                    && before.may_attempt(ctx, up_vector, limit, end, None)
        }
    }

    /// Whether the engine may have up to `iterations` attempts, the first of which starts
    /// with the cast `self`, end with the cast `end` and find `found`: what is found is what
    /// the first attempt to find anything finds, and nothing is found only if every attempt
    /// finds nothing.
    pub open spec fn may_find<B: PhysicsBackend>(
        &self,
        ctx: &B,
        up_vector: Vec3,
        limit: Option<Fixed>,
        iterations: nat,
        end: GroundCastParams<'f>,
        found: Option<(Entity, CastResult)>,
    ) -> bool {
        match found {
            Some(_) => exists|attempts: nat, before: GroundCastParams<'f>|
                #![trigger self.may_miss(ctx, up_vector, limit, attempts, before)]
                {
                    &&& attempts < iterations
                    &&& self.may_miss(ctx, up_vector, limit, attempts, before)
                    &&& before.may_attempt(ctx, up_vector, limit, end, found)
                },
            None => self.may_miss(ctx, up_vector, limit, iterations, end),
        }
    }

    /// A cast that got somewhere by corrections, overlaps there and is corrected once more has
    /// got to where it is by one correction more.
    proof fn lemma_one_more_correction<B: PhysicsBackend>(
        &self,
        ctx: &B,
        corrections: nat,
        before: GroundCastParams<'f>,
        end: GroundCastParams<'f>,
    )
        requires
            self.may_escape_to(ctx, corrections, before),
            before.may_meet(ctx, ShapeOutcome::Penetrating),
            before.may_correct_to(ctx, end.position),
            end.direction == before.direction,
            end.max_toi == before.max_toi,
            end.filter == before.filter,
        ensures
            self.may_escape_to(ctx, corrections + 1, end),
    {
        assert(((corrections + 1) - 1) as nat == corrections);
    }

    /// Attempts that found nothing, followed by one more that finds nothing, are one attempt
    /// more that found nothing.
    proof fn lemma_one_more_miss<B: PhysicsBackend>(
        &self,
        ctx: &B,
        up_vector: Vec3,
        limit: Option<Fixed>,
        attempts: nat,
        before: GroundCastParams<'f>,
        end: GroundCastParams<'f>,
    )
        requires
            self.may_miss(ctx, up_vector, limit, attempts, before),
            before.may_attempt(ctx, up_vector, limit, end, None),
        ensures
            self.may_miss(ctx, up_vector, limit, attempts + 1, end),
    {
        assert(((attempts + 1) - 1) as nat == attempts);
    }

    /// Looks for the ground once: moves out of overlaps, casts the shape, falls back to a ray,
    /// and rebuilds the normal. What is found has a normal that is not zero, and its angle to
    /// the up vector as the host measured it.
    pub fn cast<B: PhysicsBackend>(&mut self, ctx: &B, up_vector: Vec3) -> (found: Option<
        (Entity, CastResult),
    >)
        ensures
            old(self).may_cast(ctx, up_vector, *final(self), found),
            final(self).direction == old(self).direction,
            final(self).max_toi == old(self).max_toi,
            final(self).filter == old(self).filter,
            found matches Some(hit) ==> hit.1.normal != Vec3::spec_zero(),
    {
        let first = ctx.shape_cast(self.position, self.direction, self.max_toi, &self.filter);
        assert(may_cast_shape(ctx, self.position, self.direction, self.max_toi, &self.filter, first));
        let mut outcome = classify_shape_hit(first);
        let mut corrections: usize = 0;
        while outcome.overlapping() && corrections < PENETRATION_ITERATIONS
            invariant
                corrections <= PENETRATION_ITERATIONS,
                old(self).may_escape_to(ctx, corrections as nat, *self),
                self.may_meet(ctx, outcome),
                self.direction == old(self).direction,
                self.max_toi == old(self).max_toi,
                self.filter == old(self).filter,
            decreases PENETRATION_ITERATIONS - corrections,
        {
            let ghost before = *self;
            let ghost done: nat = corrections as nat;
            assert(before.may_meet(ctx, ShapeOutcome::Penetrating));
            self.correct_penetrations(ctx);
            corrections = corrections + 1;
            proof {
                old(self).lemma_one_more_correction(ctx, done, before, *self);
            }
            let next = ctx.shape_cast(self.position, self.direction, self.max_toi, &self.filter);
            assert(may_cast_shape(ctx, self.position, self.direction, self.max_toi, &self.filter, next));
            outcome = classify_shape_hit(next);
        }
        let ghost end = *self;

        let hit = match outcome {
            ShapeOutcome::Clear { entity, cast } => Some((entity, cast)),
            _ => self.cast_ray(ctx),
        };
        assert(old(self).may_hit(ctx, end, hit)) by {
            assert(old(self).may_escape_to(ctx, corrections as nat, end) && end.may_meet(
                ctx,
                outcome,
            ));
        }
        match hit {
            Some((entity, cast)) => {
                match self.sample_normals(ctx, cast, up_vector) {
                    Some(sampled_normal) => {
                        let angle = ctx.angle_between(sampled_normal, up_vector);
                        assert(may_measure(ctx, sampled_normal, up_vector, angle));
                        Some(
                            (
                                entity,
                                CastResult {
                                    toi: cast.toi,
                                    normal: sampled_normal,
                                    point: cast.point,
                                    angle,
                                },
                            ),
                        )
                    },
                    None => None,
                }
            },
            None => None,
        }
    }

    /// Looks for ground that is no steeper than `max_angle`, once. Where the ground that is
    /// found is steeper, the cast slides down it, ready for the next attempt.
    pub fn viable_cast<B: PhysicsBackend>(
        &mut self,
        ctx: &B,
        up_vector: Vec3,
        max_angle: Fixed,
    ) -> (found: Option<(Entity, CastResult)>)
        ensures
            old(self).may_attempt(ctx, up_vector, Some(max_angle), *final(self), found),
            final(self).filter == old(self).filter,
            found matches Some(hit) ==> hit.1.normal != Vec3::spec_zero() && hit.1.spec_viable(
                max_angle,
            ),
    {
        let any = self.cast(ctx, up_vector);
        let ghost after = *self;
        assert(old(self).may_cast(ctx, up_vector, after, any));
        match any {
            Some((entity, cast)) => {
                if cast.viable(max_angle) {
                    Some((entity, cast))
                } else {
                    self.slide(cast, up_vector);
                    None
                }
            },
            None => None,
        }
    }

    /// Looks for the ground up to `iterations` times, and hands back the first that is found.
    pub fn cast_iters<B: PhysicsBackend>(
        &mut self,
        ctx: &B,
        up_vector: Vec3,
        iterations: usize,
    ) -> (found: Option<(Entity, CastResult)>)
        ensures
            old(self).may_find(ctx, up_vector, None, iterations as nat, *final(self), found),
            final(self).filter == old(self).filter,
            iterations == 0 ==> found is None,
            found matches Some(hit) ==> hit.1.normal != Vec3::spec_zero(),
    {
        let mut attempt: usize = 0;
        while attempt < iterations
            invariant
                attempt <= iterations,
                old(self).may_miss(ctx, up_vector, None, attempt as nat, *self),
                self.filter == old(self).filter,
            decreases iterations - attempt,
        {
            let ghost before = *self;
            let ghost done: nat = attempt as nat;
            let found = self.cast(ctx, up_vector);
            assert(before.may_attempt(ctx, up_vector, None, *self, found));
            if let Some(hit) = found {
                assert(old(self).may_miss(ctx, up_vector, None, done, before));
                return Some(hit);
            }
            attempt = attempt + 1;
            proof {
                old(self).lemma_one_more_miss(ctx, up_vector, None, done, before, *self);
            }
        }
        None
    }

    /// Looks for ground that is no steeper than `max_angle` up to `iterations` times, sliding
    /// down what is steeper, and hands back the first that is found.
    pub fn viable_cast_iters<B: PhysicsBackend>(
        &mut self,
        ctx: &B,
        max_angle: Fixed,
        up_vector: Vec3,
        iterations: usize,
    ) -> (found: Option<(Entity, CastResult)>)
        ensures
            old(self).may_find(
                ctx,
                up_vector,
                Some(max_angle),
                iterations as nat,
                *final(self),
                found,
            ),
            final(self).filter == old(self).filter,
            iterations == 0 ==> found is None,
            found matches Some(hit) ==> hit.1.normal != Vec3::spec_zero() && hit.1.spec_viable(
                max_angle,
            ),
    {
        let mut attempt: usize = 0;
        while attempt < iterations
            invariant
                attempt <= iterations,
                old(self).may_miss(ctx, up_vector, Some(max_angle), attempt as nat, *self),
                self.filter == old(self).filter,
            decreases iterations - attempt,
        {
            let ghost before = *self;
            let ghost done: nat = attempt as nat;
            let found = self.viable_cast(ctx, up_vector, max_angle);
            if let Some(hit) = found {
                assert(old(self).may_miss(ctx, up_vector, Some(max_angle), done, before));
                return Some(hit);
            }
            attempt = attempt + 1;
            proof {
                old(self).lemma_one_more_miss(ctx, up_vector, Some(max_angle), done, before, *self);
            }
        }
        None
    }
}

} // verus!
