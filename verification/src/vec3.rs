//! Three-dimensional vectors of fixed-point numbers.

use vstd::prelude::*;
use crate::fixed::{Fixed, SCALE, fixed_of, trunc_div, floor_sqrt, is_floor_sqrt, isqrt,
    lemma_floor_sqrt};

verus! {

/// A vector, or a point, in space.
#[derive(Clone, Copy, Debug, PartialEq, Eq, Structural)]
pub struct Vec3 {
    /// The first component.
    pub x: Fixed,
    /// The second component.
    pub y: Fixed,
    /// The third component.
    pub z: Fixed,
}

/// The square of a raw value, which always fits in 128 bits.
fn wide_square(a: i64) -> (p: u128)
    ensures
        p == a * a,
        p <= 0x4000_0000_0000_0000_0000_0000_0000_0000,
{
    assert(0 <= a * a <= 0x4000_0000_0000_0000_0000_0000_0000_0000) by (nonlinear_arith)
        requires
            -0x8000_0000_0000_0000 <= a <= 0x7fff_ffff_ffff_ffff,
    ;
    let wide: i128 = a as i128;
    (wide * wide) as u128
}

/// The square of an unsigned 64-bit value, which always fits in 128 bits.
fn wide_square_unsigned(a: u64) -> (p: u128)
    ensures
        p == a * a,
{
    assert(0 <= a * a <= 0xffff_ffff_ffff_ffff_ffff_ffff_ffff_ffff) by (nonlinear_arith)
        requires
            0 <= a <= 0xffff_ffff_ffff_ffff,
    ;
    (a as u128) * (a as u128)
}

/// One component of a product of two raw values, rounded toward zero.
fn scaled_product(a: i64, b: i64) -> (p: i128)
    ensures
        p == trunc_div(a * b, SCALE as int),
        -0x4000_0000_0000_0000_0000_0000_0000 <= p <= 0x4000_0000_0000_0000_0000_0000_0000,
{
    assert(-0x4000_0000_0000_0000_0000_0000_0000_0000 <= a * b
        <= 0x4000_0000_0000_0000_0000_0000_0000_0000) by (nonlinear_arith)
        requires
            -0x8000_0000_0000_0000 <= a <= 0x7fff_ffff_ffff_ffff,
            -0x8000_0000_0000_0000 <= b <= 0x7fff_ffff_ffff_ffff,
    ;
    let product: i128 = (a as i128) * (b as i128);
    product / (SCALE as i128)
}

/// `a * b / d`, rounded toward zero and saturated.
fn quotient(a: i64, b: i64, d: u128) -> (q: Fixed)
    requires
        d > 0,
    ensures
        q == fixed_of(trunc_div(a * b, d as int)),
{
    assert(-0x4000_0000_0000_0000_0000_0000_0000_0000 <= a * b
        <= 0x4000_0000_0000_0000_0000_0000_0000_0000) by (nonlinear_arith)
        requires
            -0x8000_0000_0000_0000 <= a <= 0x7fff_ffff_ffff_ffff,
            -0x8000_0000_0000_0000 <= b <= 0x7fff_ffff_ffff_ffff,
    ;
    let product: i128 = (a as i128) * (b as i128);
    let top: u128 = if product < 0 {
        (-product) as u128
    } else {
        product as u128
    };
    let magnitude: u128 = top / d;
    assert(magnitude <= top) by (nonlinear_arith)
        requires
            magnitude == top / d,
            d >= 1,
    ;
    if product < 0 {
        Fixed::narrowed(-(magnitude as i128))
    } else {
        Fixed::narrowed(magnitude as i128)
    }
}

/// The smallest integer whose square is at least `n`.
pub open spec fn ceil_sqrt(n: int) -> int {
    let r: int = floor_sqrt(n);
    if r * r == n || n <= 0 {
        r
    } else {
        r + 1
    }
}

/// A quotient rounded toward zero is no larger in size than the exact quotient.
pub proof fn lemma_trunc_div_bound(a: int, d: int)
    requires
        d > 0,
    ensures
        trunc_div(a, d) * trunc_div(a, d) * (d * d) <= a * a,
        a >= 0 ==> 0 <= trunc_div(a, d) * d <= a,
        a <= 0 ==> a <= trunc_div(a, d) * d <= 0,
{
    let q: int = trunc_div(a, d);
    if a >= 0 {
        assert(0 <= q * d <= a) by (nonlinear_arith)
            requires
                q == a / d,
                d > 0,
                a >= 0,
        ;
        assert(q * q * (d * d) <= a * a) by (nonlinear_arith)
            requires
                0 <= q * d <= a,
        ;
    } else {
        let m: int = -a;
        let p: int = m / d;
        assert(0 <= p * d <= m) by (nonlinear_arith)
            requires
                p == m / d,
                d > 0,
                m >= 0,
        ;
        assert(q * d == -(p * d)) by (nonlinear_arith)
            requires
                q == -p,
        ;
        assert(q * q * (d * d) <= a * a) by (nonlinear_arith)
            requires
                q == -p,
                m == -a,
                0 <= p * d <= m,
        ;
    }
}

impl Vec3 {
    /// The vector whose components are all zero.
    pub open spec fn spec_zero() -> Vec3 {
        Vec3 { x: Fixed::spec_zero(), y: Fixed::spec_zero(), z: Fixed::spec_zero() }
    }

    /// The vector whose components are all `v`.
    pub open spec fn spec_splat(v: Fixed) -> Vec3 {
        Vec3 { x: v, y: v, z: v }
    }

    /// The sum, component by component.
    pub open spec fn spec_plus(self, other: Vec3) -> Vec3 {
        Vec3 { x: self.x.plus(other.x), y: self.y.plus(other.y), z: self.z.plus(other.z) }
    }

    /// The difference, component by component.
    pub open spec fn spec_minus(self, other: Vec3) -> Vec3 {
        Vec3 { x: self.x.minus(other.x), y: self.y.minus(other.y), z: self.z.minus(other.z) }
    }

    /// The opposite vector.
    pub open spec fn spec_neg(self) -> Vec3 {
        Vec3 { x: self.x.neg(), y: self.y.neg(), z: self.z.neg() }
    }

    /// The vector of absolute values.
    pub open spec fn spec_abs(self) -> Vec3 {
        Vec3 { x: self.x.abs(), y: self.y.abs(), z: self.z.abs() }
    }

    /// Each component multiplied by `k`.
    pub open spec fn spec_scale(self, k: Fixed) -> Vec3 {
        Vec3 { x: self.x.times(k), y: self.y.times(k), z: self.z.times(k) }
    }

    /// Each component divided by `k`.
    pub open spec fn spec_shrink(self, k: Fixed) -> Vec3 {
        Vec3 { x: self.x.over(k), y: self.y.over(k), z: self.z.over(k) }
    }

    /// The product, component by component.
    pub open spec fn spec_times(self, other: Vec3) -> Vec3 {
        Vec3 { x: self.x.times(other.x), y: self.y.times(other.y), z: self.z.times(other.z) }
    }

    /// The dot product: the three products, each rounded toward zero, summed and saturated.
    pub open spec fn spec_dot(self, other: Vec3) -> Fixed {
        fixed_of(
            trunc_div(self.x.raw * other.x.raw, SCALE as int) + trunc_div(
                self.y.raw * other.y.raw,
                SCALE as int,
            ) + trunc_div(self.z.raw * other.z.raw, SCALE as int),
        )
    }

    /// The cross product; each component is a difference of two rounded products, saturated.
    pub open spec fn spec_cross(self, other: Vec3) -> Vec3 {
        Vec3 {
            x: fixed_of(
                trunc_div(self.y.raw * other.z.raw, SCALE as int) - trunc_div(
                    self.z.raw * other.y.raw,
                    SCALE as int,
                ),
            ),
            y: fixed_of(
                trunc_div(self.z.raw * other.x.raw, SCALE as int) - trunc_div(
                    self.x.raw * other.z.raw,
                    SCALE as int,
                ),
            ),
            z: fixed_of(
                trunc_div(self.x.raw * other.y.raw, SCALE as int) - trunc_div(
                    self.y.raw * other.x.raw,
                    SCALE as int,
                ),
            ),
        }
    }

    /// The squared length, exactly, in squared raw units.
    pub open spec fn norm_sq(self) -> int {
        self.x.raw * self.x.raw + self.y.raw * self.y.raw + self.z.raw * self.z.raw
    }

    /// The length, rounded down and saturated.
    pub open spec fn spec_length(self) -> Fixed {
        fixed_of(floor_sqrt(self.norm_sq()))
    }

    /// The distance to `other`.
    pub open spec fn spec_distance(self, other: Vec3) -> Fixed {
        self.spec_minus(other).spec_length()
    }

    /// The vector of length one that points the same way, each component rounded toward zero;
    /// the zero vector stays zero.
    pub open spec fn spec_normalize_or_zero(self) -> Vec3 {
        let len: int = floor_sqrt(self.norm_sq());
        if len <= 0 {
            Vec3::spec_zero()
        } else {
            Vec3 {
                x: fixed_of(trunc_div(self.x.raw * SCALE, len)),
                y: fixed_of(trunc_div(self.y.raw * SCALE, len)),
                z: fixed_of(trunc_div(self.z.raw * SCALE, len)),
            }
        }
    }

    /// The vector itself where it is no longer than `max`, else the vector shortened to that
    /// length, each component rounded toward zero. A negative `max` counts as zero.
    pub open spec fn spec_clamp_length_max(self, max: Fixed) -> Vec3 {
        let m: int = if max.raw < 0 {
            0
        } else {
            max.raw as int
        };
        if self.norm_sq() <= m * m {
            self
        } else {
            let len: int = ceil_sqrt(self.norm_sq());
            Vec3 {
                x: fixed_of(trunc_div(self.x.raw * m, len)),
                y: fixed_of(trunc_div(self.y.raw * m, len)),
                z: fixed_of(trunc_div(self.z.raw * m, len)),
            }
        }
    }

    /// The part of `self` that lies along `other`; zero where `other` is zero.
    pub open spec fn spec_project_onto(self, other: Vec3) -> Vec3 {
        other.spec_scale(self.spec_dot(other).over(other.spec_dot(other)))
    }

    /// The vector with the given components.
    pub fn new(x: Fixed, y: Fixed, z: Fixed) -> (r: Vec3)
        ensures
            r.x == x,
            r.y == y,
            r.z == z,
    {
        Vec3 { x, y, z }
    }

    /// The vector whose components are all zero.
    #[verifier::when_used_as_spec(spec_zero)]
    pub fn zero() -> (r: Vec3)
        ensures
            r == Vec3::spec_zero(),
    {
        Vec3 { x: Fixed::zero(), y: Fixed::zero(), z: Fixed::zero() }
    }

    /// The vector whose components are all `v`.
    #[verifier::when_used_as_spec(spec_splat)]
    pub fn splat(v: Fixed) -> (r: Vec3)
        ensures
            r == Vec3::spec_splat(v),
    {
        Vec3 { x: v, y: v, z: v }
    }

    /// The sum, component by component.
    #[verifier::when_used_as_spec(spec_plus)]
    pub fn plus(self, other: Vec3) -> (r: Vec3)
        ensures
            r == self.spec_plus(other),
    {
        Vec3 { x: self.x.plus(other.x), y: self.y.plus(other.y), z: self.z.plus(other.z) }
    }

    /// The difference, component by component.
    #[verifier::when_used_as_spec(spec_minus)]
    pub fn minus(self, other: Vec3) -> (r: Vec3)
        ensures
            r == self.spec_minus(other),
    {
        Vec3 { x: self.x.minus(other.x), y: self.y.minus(other.y), z: self.z.minus(other.z) }
    }

    /// The opposite vector.
    #[verifier::when_used_as_spec(spec_neg)]
    pub fn neg(self) -> (r: Vec3)
        ensures
            r == self.spec_neg(),
    {
        Vec3 { x: self.x.neg(), y: self.y.neg(), z: self.z.neg() }
    }

    /// The vector of absolute values.
    #[verifier::when_used_as_spec(spec_abs)]
    pub fn abs(self) -> (r: Vec3)
        ensures
            r == self.spec_abs(),
    {
        Vec3 { x: self.x.abs(), y: self.y.abs(), z: self.z.abs() }
    }

    /// Each component multiplied by `k`.
    #[verifier::when_used_as_spec(spec_scale)]
    pub fn scale(self, k: Fixed) -> (r: Vec3)
        ensures
            r == self.spec_scale(k),
    {
        Vec3 { x: self.x.times(k), y: self.y.times(k), z: self.z.times(k) }
    }

    /// Each component divided by `k`.
    #[verifier::when_used_as_spec(spec_shrink)]
    pub fn shrink(self, k: Fixed) -> (r: Vec3)
        ensures
            r == self.spec_shrink(k),
    {
        Vec3 { x: self.x.over(k), y: self.y.over(k), z: self.z.over(k) }
    }

    /// The product, component by component.
    #[verifier::when_used_as_spec(spec_times)]
    pub fn times(self, other: Vec3) -> (r: Vec3)
        ensures
            r == self.spec_times(other),
    {
        Vec3 { x: self.x.times(other.x), y: self.y.times(other.y), z: self.z.times(other.z) }
    }

    /// The dot product: the three products, each rounded toward zero, summed and saturated.
    #[verifier::when_used_as_spec(spec_dot)]
    pub fn dot(self, other: Vec3) -> (r: Fixed)
        ensures
            r == self.spec_dot(other),
    {
        let a: i128 = scaled_product(self.x.raw, other.x.raw);
        let b: i128 = scaled_product(self.y.raw, other.y.raw);
        let c: i128 = scaled_product(self.z.raw, other.z.raw);
        Fixed::narrowed(a + b + c)
    }

    /// The cross product; each component is a difference of two rounded products, saturated.
    #[verifier::when_used_as_spec(spec_cross)]
    pub fn cross(self, other: Vec3) -> (r: Vec3)
        ensures
            r == self.spec_cross(other),
    {
        let yz: i128 = scaled_product(self.y.raw, other.z.raw);
        let zy: i128 = scaled_product(self.z.raw, other.y.raw);
        let zx: i128 = scaled_product(self.z.raw, other.x.raw);
        let xz: i128 = scaled_product(self.x.raw, other.z.raw);
        let xy: i128 = scaled_product(self.x.raw, other.y.raw);
        let yx: i128 = scaled_product(self.y.raw, other.x.raw);
        Vec3 {
            x: Fixed::narrowed(yz - zy),
            y: Fixed::narrowed(zx - xz),
            z: Fixed::narrowed(xy - yx),
        }
    }

    /// The squared length, exactly, in squared raw units.
    pub fn norm_sq_wide(self) -> (n: u128)
        ensures
            n == self.norm_sq(),
    {
        let a: u128 = wide_square(self.x.raw);
        let b: u128 = wide_square(self.y.raw);
        let c: u128 = wide_square(self.z.raw);
        a + b + c
    }

    /// Whether every component is zero.
    pub fn is_zero(self) -> (r: bool)
        ensures
            r == (self.norm_sq() == 0),
            r == (self == Vec3::spec_zero()),
    {
        proof {
            let x: int = self.x.raw as int;
            let y: int = self.y.raw as int;
            let z: int = self.z.raw as int;
            assert(x * x >= 0 && (x != 0 ==> x * x > 0)) by (nonlinear_arith);
            assert(y * y >= 0 && (y != 0 ==> y * y > 0)) by (nonlinear_arith);
            assert(z * z >= 0 && (z != 0 ==> z * z > 0)) by (nonlinear_arith);
        }
        self.x.raw == 0 && self.y.raw == 0 && self.z.raw == 0
    }

    /// The length, rounded down and saturated.
    #[verifier::when_used_as_spec(spec_length)]
    pub fn length(self) -> (r: Fixed)
        ensures
            r == self.spec_length(),
    {
        let root: u64 = isqrt(self.norm_sq_wide());
        Fixed::narrowed(root as i128)
    }

    /// The vector of length one that points the same way, each component rounded toward zero;
    /// the zero vector stays zero.
    #[verifier::when_used_as_spec(spec_normalize_or_zero)]
    pub fn normalize_or_zero(self) -> (r: Vec3)
        ensures
            r == self.spec_normalize_or_zero(),
    {
        let len: u128 = isqrt(self.norm_sq_wide()) as u128;
        if len == 0 {
            Vec3::zero()
        } else {
            Vec3 {
                x: quotient(self.x.raw, SCALE, len),
                y: quotient(self.y.raw, SCALE, len),
                z: quotient(self.z.raw, SCALE, len),
            }
        }
    }

    /// The vector itself where it is no longer than `max`, else the vector shortened to that
    /// length, each component rounded toward zero. A negative `max` counts as zero.
    #[verifier::when_used_as_spec(spec_clamp_length_max)]
    pub fn clamp_length_max(self, max: Fixed) -> (r: Vec3)
        ensures
            r == self.spec_clamp_length_max(max),
    {
        let m: i64 = if max.raw < 0 {
            0
        } else {
            max.raw
        };
        let n: u128 = self.norm_sq_wide();
        if n <= wide_square(m) {
            self
        } else {
            let floor: u64 = isqrt(n);
            proof {
                lemma_floor_sqrt(n as int);
            }
            let len: u128 = if wide_square_unsigned(floor) == n {
                floor as u128
            } else {
                floor as u128 + 1
            };
            Vec3 {
                x: quotient(self.x.raw, m, len),
                y: quotient(self.y.raw, m, len),
                z: quotient(self.z.raw, m, len),
            }
        }
    }

    /// The part of `self` that lies along `other`; zero where `other` is zero.
    #[verifier::when_used_as_spec(spec_project_onto)]
    pub fn project_onto(self, other: Vec3) -> (r: Vec3)
        ensures
            r == self.spec_project_onto(other),
    {
        other.scale(self.dot(other).over(other.dot(other)))
    }

    /// The distance to `other`.
    #[verifier::when_used_as_spec(spec_distance)]
    pub fn distance(self, other: Vec3) -> (r: Fixed)
        ensures
            r == self.spec_distance(other),
    {
        self.minus(other).length()
    }
}


/// A rounded quotient of `x * m` by a length that is at least `|x|` lies within `m` of zero.
proof fn lemma_shortened_component(x: int, m: int, len: int)
    requires
        len > 0,
        m >= 0,
        x * x <= len * len,
    ensures
        -m <= trunc_div(x * m, len) <= m,
        trunc_div(x * m, len) * trunc_div(x * m, len) * (len * len) <= (x * x) * (m * m),
{
    let q: int = trunc_div(x * m, len);
    lemma_trunc_div_bound(x * m, len);
    assert((x * m) * (x * m) == (x * x) * (m * m)) by (nonlinear_arith);
    assert((x * x) * (m * m) <= (len * len) * (m * m)) by (nonlinear_arith)
        requires
            x * x <= len * len,
            m * m >= 0,
    ;
    assert(q * q <= m * m) by (nonlinear_arith)
        requires
            q * q * (len * len) <= (len * len) * (m * m),
            len > 0,
    ;
    assert(-m <= q <= m) by (nonlinear_arith)
        requires
            q * q <= m * m,
            m >= 0,
    ;
}

/// The square of the rounded-up square root of `n` is at least `n`.
proof fn lemma_ceil_sqrt(n: int)
    requires
        n > 0,
    ensures
        ceil_sqrt(n) > 0,
        ceil_sqrt(n) * ceil_sqrt(n) >= n,
{
    lemma_floor_sqrt(n);
    let r: int = floor_sqrt(n);
    assert(is_floor_sqrt(r, n));
    if r == 0 {
        assert(r * r == 0) by (nonlinear_arith)
            requires
                r == 0,
        ;
    }
}

/// A vector that was clamped to a length is no longer than that length: the squares of its
/// components sum to at most the square of the bound.
pub proof fn law_clamped_length_within_bound(v: Vec3, max: Fixed)
    ensures
        max.raw >= 0 ==> v.spec_clamp_length_max(max).norm_sq() <= max.raw * max.raw,
        max.raw < 0 ==> v.spec_clamp_length_max(max).norm_sq() == 0,
{
    let m: int = if max.raw < 0 {
        0
    } else {
        max.raw as int
    };
    let n: int = v.norm_sq();
    let x: int = v.x.raw as int;
    let y: int = v.y.raw as int;
    let z: int = v.z.raw as int;
    assert(x * x >= 0 && y * y >= 0 && z * z >= 0) by (nonlinear_arith);
    assert(m * m >= 0) by (nonlinear_arith);
    if n <= m * m {
        if max.raw < 0 {
            assert(m * m == 0) by (nonlinear_arith)
                requires
                    m == 0,
            ;
        }
    } else {
        let len: int = ceil_sqrt(n);
        lemma_ceil_sqrt(n);
        lemma_shortened_component(x, m, len);
        lemma_shortened_component(y, m, len);
        lemma_shortened_component(z, m, len);
        let qx: int = trunc_div(x * m, len);
        let qy: int = trunc_div(y * m, len);
        let qz: int = trunc_div(z * m, len);
        let r: Vec3 = v.spec_clamp_length_max(max);
        assert(r.x.raw == qx && r.y.raw == qy && r.z.raw == qz);
        assert((qx * qx + qy * qy + qz * qz) * (len * len) <= n * (m * m)) by (nonlinear_arith)
            requires
                qx * qx * (len * len) <= (x * x) * (m * m),
                qy * qy * (len * len) <= (y * y) * (m * m),
                qz * qz * (len * len) <= (z * z) * (m * m),
                n == x * x + y * y + z * z,
        ;
        assert(n * (m * m) <= (len * len) * (m * m)) by (nonlinear_arith)
            requires
                n <= len * len,
                m * m >= 0,
        ;
        assert(qx * qx + qy * qy + qz * qz <= m * m) by (nonlinear_arith)
            requires
                (qx * qx + qy * qy + qz * qz) * (len * len) <= (len * len) * (m * m),
                len > 0,
        ;
        if max.raw < 0 {
            assert(m * m == 0) by (nonlinear_arith)
                requires
                    m == 0,
            ;
            assert(qx * qx >= 0 && qy * qy >= 0 && qz * qz >= 0) by (nonlinear_arith);
        }
    }
}

} // verus!
