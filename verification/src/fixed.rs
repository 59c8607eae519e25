//! Saturating fixed-point scalars.
//!
//! A [`Fixed`] holds a count of millionths. Every operation is total: a result that does not fit
//! is held at the nearest end of the range, and a quotient is rounded toward zero, so that
//! negating an operand negates the result.

use vstd::prelude::*;

verus! {

/// How many raw units make up the number one.
pub const SCALE: i64 = 1_000_000;

/// The largest raw value; the smallest one that an operation returns is its negation.
pub const RAW_MAX: i64 = 0x7fff_ffff_ffff_ffff;

/// `x` held inside the symmetric range of raw values.
pub open spec fn saturate(x: int) -> int {
    if x > RAW_MAX {
        RAW_MAX as int
    } else if x < -RAW_MAX {
        -(RAW_MAX as int)
    } else {
        x
    }
}

/// The quotient of `x` by `d`, rounded toward zero. Meant for `d != 0`.
pub open spec fn trunc_div(x: int, d: int) -> int {
    if d > 0 {
        if x >= 0 {
            x / d
        } else {
            -((-x) / d)
        }
    } else {
        if x >= 0 {
            -(x / (-d))
        } else {
            (-x) / (-d)
        }
    }
}

/// Whether `r` is the integer square root of `n`, rounded down.
pub open spec fn is_floor_sqrt(r: int, n: int) -> bool {
    0 <= r && r * r <= n && n < (r + 1) * (r + 1)
}

/// The integer square root of `n`, rounded down; zero for a negative `n`.
pub open spec fn floor_sqrt(n: int) -> int {
    if n <= 0 {
        0
    } else {
        choose|r: int| is_floor_sqrt(r, n)
    }
}

/// Squaring is monotonic on the non-negative integers.
pub proof fn lemma_square_monotonic(a: int, b: int)
    requires
        0 <= a <= b,
    ensures
        a * a <= b * b,
{
    assert(a * a <= b * b) by (nonlinear_arith)
        requires
            0 <= a <= b,
    ;
}

/// At most one integer is the rounded-down square root of `n`.
pub proof fn lemma_floor_sqrt_unique(r: int, s: int, n: int)
    requires
        is_floor_sqrt(r, n),
        is_floor_sqrt(s, n),
    ensures
        r == s,
{
    if r < s {
        lemma_square_monotonic(r + 1, s);
    } else if s < r {
        lemma_square_monotonic(s + 1, r);
    }
}

/// Every non-negative integer has a rounded-down square root.
pub proof fn lemma_floor_sqrt_exists(n: int)
    requires
        0 <= n,
    ensures
        exists|r: int| is_floor_sqrt(r, n),
    decreases n,
{
    if n == 0 {
        assert(is_floor_sqrt(0, 0));
    } else {
        let m: int = n - 1;
        lemma_floor_sqrt_exists(m);
        let s: int = choose|r: int| is_floor_sqrt(r, m);
        if (s + 1) * (s + 1) <= n {
            assert((s + 2) * (s + 2) > (s + 1) * (s + 1)) by (nonlinear_arith)
                requires
                    0 <= s,
            ;
            assert(is_floor_sqrt(s + 1, n));
        } else {
            assert(is_floor_sqrt(s, n));
        }
    }
}

/// `floor_sqrt` is the rounded-down square root wherever one exists.
pub proof fn lemma_floor_sqrt(n: int)
    requires
        0 <= n,
    ensures
        is_floor_sqrt(floor_sqrt(n), n),
{
    if n == 0 {
        assert(is_floor_sqrt(0, 0));
    } else {
        lemma_floor_sqrt_exists(n);
    }
}

/// The rounded-down square root never falls as its argument grows.
pub proof fn lemma_floor_sqrt_monotonic(n: int, m: int)
    requires
        n <= m,
    ensures
        floor_sqrt(n) <= floor_sqrt(m),
{
    if n <= 0 {
        if m > 0 {
            lemma_floor_sqrt(m);
        }
    } else {
        lemma_floor_sqrt(n);
        lemma_floor_sqrt(m);
        let r: int = floor_sqrt(n);
        let s: int = floor_sqrt(m);
        if s < r {
            lemma_square_monotonic(s + 1, r);
        }
    }
}

/// The integer square root of `n`, rounded down.
pub fn isqrt(n: u128) -> (r: u64)
    ensures
        r == floor_sqrt(n as int),
{
    let mut lo: u128 = 0;
    let mut hi: u128 = 0x1_0000_0000_0000_0000;
    proof {
        assert((hi as int) * (hi as int) > n) by (nonlinear_arith)
            requires
                hi == 0x1_0000_0000_0000_0000u128,
                n <= 0xffff_ffff_ffff_ffff_ffff_ffff_ffff_ffffu128,
        ;
    }
    while hi - lo > 1
        invariant
            lo < hi <= 0x1_0000_0000_0000_0000,
            (lo as int) * (lo as int) <= n,
            (hi as int) * (hi as int) > n,
        decreases hi - lo,
    {
        let mid: u128 = lo + (hi - lo) / 2;
        assert((mid as int) * (mid as int) < 0x1_0000_0000_0000_0000_0000_0000_0000_0000) by (nonlinear_arith)
            requires
                0 <= mid < 0x1_0000_0000_0000_0000,
        ;
        if mid * mid <= n {
            lo = mid;
        } else {
            hi = mid;
        }
    }
    proof {
        assert(is_floor_sqrt(lo as int, n as int));
        lemma_floor_sqrt(n as int);
        lemma_floor_sqrt_unique(lo as int, floor_sqrt(n as int), n as int);
    }
    lo as u64
}

/// A signed fixed-point number: `raw` millionths.
#[derive(Clone, Copy, Debug, PartialEq, Eq, Structural)]
pub struct Fixed {
    /// The number, counted in millionths.
    pub raw: i64,
}

/// The scalar with the raw value `saturate(x)`.
pub open spec fn fixed_of(x: int) -> Fixed {
    Fixed { raw: saturate(x) as i64 }
}

/// The product of two raw values, which always fits in 128 bits.
fn wide_product(a: i64, b: i64) -> (p: i128)
    ensures
        p == a * b,
        -0x4000_0000_0000_0000_0000_0000_0000_0000 <= p <= 0x4000_0000_0000_0000_0000_0000_0000_0000,
{
    assert(-0x4000_0000_0000_0000_0000_0000_0000_0000 <= a * b
        <= 0x4000_0000_0000_0000_0000_0000_0000_0000) by (nonlinear_arith)
        requires
            -0x8000_0000_0000_0000 <= a <= 0x7fff_ffff_ffff_ffff,
            -0x8000_0000_0000_0000 <= b <= 0x7fff_ffff_ffff_ffff,
    ;
    (a as i128) * (b as i128)
}

impl Fixed {
    /// The scalar nearest to the wide raw value `x`: a wide intermediate result, brought back
    /// into the range of raw values.
    pub fn narrowed(x: i128) -> (r: Fixed)
        ensures
            r == fixed_of(x as int),
    {
        if x > RAW_MAX as i128 {
            Fixed { raw: RAW_MAX }
        } else if x < -(RAW_MAX as i128) {
            Fixed { raw: -RAW_MAX }
        } else {
            Fixed { raw: x as i64 }
        }
    }

    /// Zero.
    pub open spec fn spec_zero() -> Fixed {
        Fixed { raw: 0 }
    }

    /// One.
    pub open spec fn spec_one() -> Fixed {
        Fixed { raw: SCALE }
    }

    /// The sum, saturated.
    pub open spec fn spec_plus(self, other: Fixed) -> Fixed {
        fixed_of(self.raw + other.raw)
    }

    /// The difference, saturated.
    pub open spec fn spec_minus(self, other: Fixed) -> Fixed {
        fixed_of(self.raw - other.raw)
    }

    /// The negation, saturated.
    pub open spec fn spec_neg(self) -> Fixed {
        fixed_of(-self.raw)
    }

    /// The absolute value, saturated.
    pub open spec fn spec_abs(self) -> Fixed {
        if self.raw < 0 {
            self.spec_neg()
        } else {
            self
        }
    }

    /// The product, rounded toward zero and saturated.
    pub open spec fn spec_times(self, other: Fixed) -> Fixed {
        fixed_of(trunc_div(self.raw * other.raw, SCALE as int))
    }

    /// The quotient, rounded toward zero and saturated. A division by zero gives the end of the
    /// range on the dividend's side, and zero for a zero dividend.
    pub open spec fn spec_over(self, other: Fixed) -> Fixed {
        if other.raw == 0 {
            if self.raw > 0 {
                Fixed { raw: RAW_MAX }
            } else if self.raw < 0 {
                Fixed { raw: (-RAW_MAX) as i64 }
            } else {
                Fixed { raw: 0 }
            }
        } else {
            fixed_of(trunc_div(self.raw * SCALE, other.raw as int))
        }
    }

    /// The square root, rounded down; zero for a negative number.
    pub open spec fn spec_sqrt(self) -> Fixed {
        Fixed { raw: floor_sqrt(self.raw * SCALE) as i64 }
    }

    /// The smaller of the two.
    pub open spec fn spec_min(self, other: Fixed) -> Fixed {
        if self.raw <= other.raw {
            self
        } else {
            other
        }
    }

    /// The larger of the two.
    pub open spec fn spec_max(self, other: Fixed) -> Fixed {
        if self.raw >= other.raw {
            self
        } else {
            other
        }
    }

    /// `self` held between `low` and `high`; `low` wins where the two bounds cross.
    pub open spec fn spec_clamp(self, low: Fixed, high: Fixed) -> Fixed {
        if self.raw < low.raw {
            low
        } else if self.raw > high.raw {
            high.spec_max(low)
        } else {
            self
        }
    }

    /// What a timer that shows `self` shows after `dt` has passed: it runs down to zero and
    /// stays there. A timer that is not running is left as it is.
    pub open spec fn spec_run_down(self, dt: Fixed) -> Fixed {
        if self.raw > 0 {
            self.spec_minus(dt).spec_max(Fixed::spec_zero())
        } else {
            self
        }
    }

    /// Zero.
    #[verifier::when_used_as_spec(spec_zero)]
    pub fn zero() -> (r: Fixed)
        ensures
            r == Fixed::spec_zero(),
    {
        Fixed { raw: 0 }
    }

    /// One.
    #[verifier::when_used_as_spec(spec_one)]
    pub fn one() -> (r: Fixed)
        ensures
            r == Fixed::spec_one(),
    {
        Fixed { raw: SCALE }
    }

    /// The scalar that counts `raw` millionths.
    pub fn from_raw(raw: i64) -> (r: Fixed)
        ensures
            r.raw == raw,
    {
        Fixed { raw }
    }

    /// The whole number `n`.
    pub fn from_int(n: i32) -> (r: Fixed)
        ensures
            r.raw == n * SCALE,
    {
        let wide: i64 = n as i64;
        Fixed { raw: wide * SCALE }
    }

    /// The fraction `num / den`, as `Fixed::from_raw(num).over(Fixed::from_raw(den))` gives it.
    pub fn ratio(num: i64, den: i64) -> (r: Fixed)
        ensures
            r == (Fixed { raw: num }).spec_over(Fixed { raw: den }),
    {
        Fixed { raw: num }.over(Fixed { raw: den })
    }

    /// The sum, saturated.
    #[verifier::when_used_as_spec(spec_plus)]
    pub fn plus(self, other: Fixed) -> (r: Fixed)
        ensures
            r == self.spec_plus(other),
    {
        Fixed::narrowed(self.raw as i128 + other.raw as i128)
    }

    /// The difference, saturated.
    #[verifier::when_used_as_spec(spec_minus)]
    pub fn minus(self, other: Fixed) -> (r: Fixed)
        ensures
            r == self.spec_minus(other),
    {
        Fixed::narrowed(self.raw as i128 - other.raw as i128)
    }

    /// The negation, saturated.
    #[verifier::when_used_as_spec(spec_neg)]
    pub fn neg(self) -> (r: Fixed)
        ensures
            r == self.spec_neg(),
    {
        Fixed::narrowed(-(self.raw as i128))
    }

    /// The absolute value, saturated.
    #[verifier::when_used_as_spec(spec_abs)]
    pub fn abs(self) -> (r: Fixed)
        ensures
            r == self.spec_abs(),
    {
        if self.raw < 0 {
            self.neg()
        } else {
            self
        }
    }

    /// The product, rounded toward zero and saturated.
    #[verifier::when_used_as_spec(spec_times)]
    pub fn times(self, other: Fixed) -> (r: Fixed)
        ensures
            r == self.spec_times(other),
    {
        let product: i128 = wide_product(self.raw, other.raw);
        Fixed::narrowed(product / (SCALE as i128))
    }

    /// The quotient, rounded toward zero and saturated. A division by zero gives the end of the
    /// range on the dividend's side, and zero for a zero dividend.
    #[verifier::when_used_as_spec(spec_over)]
    pub fn over(self, other: Fixed) -> (r: Fixed)
        ensures
            r == self.spec_over(other),
    {
        if other.raw == 0 {
            if self.raw > 0 {
                Fixed { raw: RAW_MAX }
            } else if self.raw < 0 {
                Fixed { raw: -RAW_MAX }
            } else {
                Fixed { raw: 0 }
            }
        } else {
            let scaled: i128 = wide_product(self.raw, SCALE);
            let divisor: i128 = other.raw as i128;
            let top: u128 = if scaled < 0 {
                (-scaled) as u128
            } else {
                scaled as u128
            };
            let bottom: u128 = if divisor < 0 {
                (-divisor) as u128
            } else {
                divisor as u128
            };
            let magnitude: u128 = top / bottom;
            assert(magnitude <= top) by (nonlinear_arith)
                requires
                    magnitude == top / bottom,
                    bottom >= 1,
            ;
            if (scaled < 0) != (divisor < 0) {
                Fixed::narrowed(-(magnitude as i128))
            } else {
                Fixed::narrowed(magnitude as i128)
            }
        }
    }

    /// The square root, rounded down; zero for a negative number.
    #[verifier::when_used_as_spec(spec_sqrt)]
    pub fn sqrt(self) -> (r: Fixed)
        ensures
            r == self.spec_sqrt(),
    {
        if self.raw <= 0 {
            Fixed { raw: 0 }
        } else {
            let scaled: i128 = wide_product(self.raw, SCALE);
            let root: u64 = isqrt(scaled as u128);
            proof {
                lemma_floor_sqrt(scaled as int);
                if root as int > RAW_MAX as int {
                    lemma_square_monotonic(RAW_MAX as int + 1, root as int);
                }
            }
            Fixed { raw: root as i64 }
        }
    }

    /// The smaller of the two.
    #[verifier::when_used_as_spec(spec_min)]
    pub fn min(self, other: Fixed) -> (r: Fixed)
        ensures
            r == self.spec_min(other),
    {
        if self.raw <= other.raw {
            self
        } else {
            other
        }
    }

    /// The larger of the two.
    #[verifier::when_used_as_spec(spec_max)]
    pub fn max(self, other: Fixed) -> (r: Fixed)
        ensures
            r == self.spec_max(other),
    {
        if self.raw >= other.raw {
            self
        } else {
            other
        }
    }

    /// `self` held between `low` and `high`; `low` wins where the two bounds cross.
    #[verifier::when_used_as_spec(spec_clamp)]
    pub fn clamp(self, low: Fixed, high: Fixed) -> (r: Fixed)
        ensures
            r == self.spec_clamp(low, high),
    {
        if self.raw < low.raw {
            low
        } else if self.raw > high.raw {
            high.max(low)
        } else {
            self
        }
    }

    /// What a timer that shows `self` shows after `dt` has passed: it runs down to zero and
    /// stays there. A timer that is not running is left as it is.
    #[verifier::when_used_as_spec(spec_run_down)]
    pub fn run_down(self, dt: Fixed) -> (r: Fixed)
        ensures
            r == self.spec_run_down(dt),
    {
        if self.raw > 0 {
            self.minus(dt).max(Fixed::zero())
        } else {
            self
        }
    }
}

/// Multiplying by one changes nothing, but for the one raw value below the range.
pub proof fn lemma_times_one(x: Fixed)
    requires
        x.raw > i64::MIN,
    ensures
        x.spec_times(Fixed::spec_one()) == x,
{
    let product: int = x.raw * SCALE;
    if x.raw >= 0 {
        assert(product / (SCALE as int) == x.raw);
    } else {
        assert((-product) / (SCALE as int) == -x.raw);
    }
}

} // verus!
