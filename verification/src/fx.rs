//! Fixed-point scalars.
//!
//! Every scalar quantity in the library (coordinates, colors, material
//! coefficients, parametric distances) is an `Fx`: a signed 64-bit count of
//! units of `1/FX_SCALE`. Arithmetic is exact integer arithmetic on the raw
//! counts, truncated toward zero where a division loses precision, and
//! saturated at the `i64` range, so every operation is total and its result
//! is pinned down exactly by the contract.

use vstd::prelude::*;

verus! {

/// Number of raw units in one whole unit: scalars carry seven decimal places.
pub const FX_SCALE: i64 = 10_000_000;

/// A fixed-point scalar; `raw` counts units of `1/FX_SCALE`.
#[derive(Clone, Copy, Debug, PartialEq, Eq, Structural)]
pub struct Fx {
    pub raw: i64,
}

/// Absolute value over mathematical integers.
pub open spec fn abs_int(x: int) -> int {
    if x < 0 {
        -x
    } else {
        x
    }
}

/// Clamp a mathematical integer into the `i64` range.
pub open spec fn sat64(x: int) -> int {
    if x > i64::MAX as int {
        i64::MAX as int
    } else if x < i64::MIN as int {
        i64::MIN as int
    } else {
        x
    }
}

/// Division truncated toward zero, as machine division behaves.
pub open spec fn tdiv(n: int, d: int) -> int
    recommends
        d != 0,
{
    if (n < 0) != (d < 0) {
        -(abs_int(n) / abs_int(d))
    } else {
        abs_int(n) / abs_int(d)
    }
}

/// The saturated sum of two raw scalar values.
pub open spec fn fx_add(a: int, b: int) -> int {
    sat64(a + b)
}

/// The saturated difference of two raw scalar values.
pub open spec fn fx_sub(a: int, b: int) -> int {
    sat64(a - b)
}

/// The saturated negation of a raw scalar value.
pub open spec fn fx_neg(a: int) -> int {
    sat64(-a)
}

/// The fixed-point product of two raw scalar values: the mathematical
/// product rescaled by `FX_SCALE`, truncated toward zero, saturated.
pub open spec fn fx_mul(a: int, b: int) -> int {
    sat64(tdiv(a * b, FX_SCALE as int))
}

/// The fixed-point quotient of two raw scalar values. Division by zero
/// saturates by the sign of the numerator, standing in for an infinity.
pub open spec fn fx_div(a: int, b: int) -> int {
    if b == 0 {
        if a > 0 {
            i64::MAX as int
        } else if a < 0 {
            i64::MIN as int
        } else {
            0
        }
    } else {
        sat64(tdiv(a * FX_SCALE as int, b))
    }
}

/// Remainder truncated toward zero: what a value keeps beside its
/// truncated whole part.
pub open spec fn fx_tmod(n: int, d: int) -> int
    recommends
        d > 0,
{
    if n < 0 {
        -(abs_int(n) % d)
    } else {
        n % d
    }
}

/// `r` is the integer square root of `x`.
pub open spec fn is_isqrt(x: int, r: int) -> bool {
    &&& r >= 0
    &&& r * r <= x
    &&& x < (r + 1) * (r + 1)
}

/// The integer square root itself, which is unique where it exists.
pub open spec fn sqrt_int(x: int) -> int {
    choose|r: int| is_isqrt(x, r)
}

/// The raw value of the square root of a scalar with raw value `a`.
pub open spec fn fx_sqrt(a: int) -> int {
    if a < 0 {
        0
    } else {
        sqrt_int(a * FX_SCALE as int)
    }
}

/// Multiplying by zero gives zero.
pub proof fn lemma_fx_mul_zero(a: int)
    ensures
        fx_mul(a, 0) == 0,
        fx_mul(0, a) == 0,
{
    assert(a * 0 == 0) by (nonlinear_arith);
    assert(0 * a == 0) by (nonlinear_arith);
    assert(abs_int(0) / (FX_SCALE as int) == 0) by (nonlinear_arith);
}

/// No value has two integer square roots.
pub proof fn lemma_isqrt_unique(x: int, r1: int, r2: int)
    requires
        is_isqrt(x, r1),
        is_isqrt(x, r2),
    ensures
        r1 == r2,
{
    if r1 < r2 {
        assert((r1 + 1) * (r1 + 1) <= r2 * r2) by (nonlinear_arith)
            requires
                0 <= r1 < r2,
        ;
    }
    if r2 < r1 {
        assert((r2 + 1) * (r2 + 1) <= r1 * r1) by (nonlinear_arith)
            requires
                0 <= r2 < r1,
        ;
    }
}

impl Fx {
    /// The raw count as a mathematical integer.
    pub open spec fn view(self) -> int {
        self.raw as int
    }

    /// Zero.
    pub fn zero() -> (r: Fx)
        ensures
            r.raw == 0,
    {
        Fx { raw: 0 }
    }

    /// One whole unit.
    pub fn one() -> (r: Fx)
        ensures
            r.raw == FX_SCALE,
    {
        Fx { raw: FX_SCALE }
    }

    /// The largest scalar, standing in for positive infinity.
    pub fn max_value() -> (r: Fx)
        ensures
            r.raw == i64::MAX,
    {
        Fx { raw: i64::MAX }
    }

    /// The smallest scalar, standing in for negative infinity.
    pub fn min_value() -> (r: Fx)
        ensures
            r.raw == i64::MIN,
    {
        Fx { raw: i64::MIN }
    }

    /// The scalar with the given whole value, saturated.
    pub fn from_int(v: i64) -> (r: Fx)
        ensures
            r.raw == sat64(v as int * FX_SCALE as int),
            -900_000_000_000 <= v <= 900_000_000_000 ==> r.raw == v as int * FX_SCALE as int,
    {
        proof {
            lemma_product_bounds(v as int, FX_SCALE as int);
            if -900_000_000_000 <= v <= 900_000_000_000 {
                assert(abs_int(v as int * FX_SCALE as int) <= 9_000_000_000_000_000_000)
                    by (nonlinear_arith)
                    requires
                        -900_000_000_000 <= v <= 900_000_000_000,
                        FX_SCALE as int == 10_000_000,
                ;
            }
        }
        let p: i128 = (v as i128) * (FX_SCALE as i128);
        Fx { raw: clamp64(p) }
    }

    /// The scalar nearest `n / d` (truncated toward zero).
    pub fn from_ratio(n: i64, d: i64) -> (r: Fx)
        ensures
            r.raw == fx_div(n as int, d as int),
    {
        Fx { raw: n }.div(Fx { raw: d })
    }

    /// Saturating addition.
    pub fn add(self, other: Fx) -> (r: Fx)
        ensures
            r.raw == fx_add(self.raw as int, other.raw as int),
    {
        let s: i128 = (self.raw as i128) + (other.raw as i128);
        Fx { raw: clamp64(s) }
    }

    /// Saturating subtraction.
    pub fn sub(self, other: Fx) -> (r: Fx)
        ensures
            r.raw == fx_sub(self.raw as int, other.raw as int),
    {
        let s: i128 = (self.raw as i128) - (other.raw as i128);
        Fx { raw: clamp64(s) }
    }

    /// Saturating negation.
    pub fn neg(self) -> (r: Fx)
        ensures
            r.raw == fx_neg(self.raw as int),
    {
        let s: i128 = -(self.raw as i128);
        Fx { raw: clamp64(s) }
    }

    /// Absolute value, saturated.
    pub fn abs(self) -> (r: Fx)
        ensures
            r.raw == sat64(abs_int(self.raw as int)),
    {
        if self.raw < 0 {
            self.neg()
        } else {
            self
        }
    }

    /// Fixed-point multiplication: exact product rescaled, truncated, saturated.
    pub fn mul(self, other: Fx) -> (r: Fx)
        ensures
            r.raw == fx_mul(self.raw as int, other.raw as int),
    {
        let a = self.raw;
        let b = other.raw;
        proof {
            lemma_product_bounds(a as int, b as int);
        }
        let p: i128 = (a as i128) * (b as i128);
        let neg: bool = p < 0;
        let m: u128 = if neg {
            (-p) as u128
        } else {
            p as u128
        };
        let q: u128 = m / (FX_SCALE as u128);
        Fx { raw: signed_clamp(neg, q) }
    }

    /// Fixed-point division; a zero divisor saturates by the numerator's sign.
    pub fn div(self, other: Fx) -> (r: Fx)
        ensures
            r.raw == fx_div(self.raw as int, other.raw as int),
    {
        let a = self.raw;
        let b = other.raw;
        if b == 0 {
            if a > 0 {
                Fx { raw: i64::MAX }
            } else if a < 0 {
                Fx { raw: i64::MIN }
            } else {
                Fx { raw: 0 }
            }
        } else {
            proof {
                lemma_product_bounds(a as int, FX_SCALE as int);
            }
            let p: i128 = (a as i128) * (FX_SCALE as i128);
            let neg: bool = (a < 0) != (b < 0);
            let m: u128 = if p < 0 {
                (-p) as u128
            } else {
                p as u128
            };
            let mb: u128 = if b < 0 {
                (-(b as i128)) as u128
            } else {
                b as u128
            };
            let q: u128 = m / mb;
            proof {
                if a == 0 {
                    assert(q == 0) by {
                        assert(m == 0);
                    };
                }
            }
            Fx { raw: signed_clamp(neg, q) }
        }
    }

    /// The integer square root of the scalar (zero when negative, where the
    /// mathematical square root does not exist).
    pub fn sqrt(self) -> (r: Fx)
        ensures
            r.raw == fx_sqrt(self.raw as int),
            self.raw >= 0 ==> is_isqrt(self.raw as int * FX_SCALE as int, r.raw as int),
            r.raw >= 0,
    {
        if self.raw < 0 {
            Fx { raw: 0 }
        } else {
            let x: u128 = (self.raw as u128) * (FX_SCALE as u128);
            let r: u128 = isqrt_u128(x);
            proof {
                assert(r * r <= x);
                assert(x < (FX_SCALE as u128) * 0x8000_0000_0000_0000u128) by (nonlinear_arith)
                    requires
                        x == (self.raw as u128) * (FX_SCALE as u128),
                        (self.raw as u128) < 0x8000_0000_0000_0000u128,
                ;
                assert(r < 0x1_0000_0000_0000u128) by (nonlinear_arith)
                    requires
                        r * r <= x,
                        x < (FX_SCALE as u128) * 0x8000_0000_0000_0000u128,
                ;
                assert(x as int == self.raw as int * FX_SCALE as int) by (nonlinear_arith)
                    requires
                        x == (self.raw as u128) * (FX_SCALE as u128),
                        0 <= self.raw,
                ;
                assert(exists|s: int| is_isqrt(x as int, s)) by {
                    assert(is_isqrt(x as int, r as int));
                }
                lemma_isqrt_unique(x as int, r as int, sqrt_int(x as int));
            }
            Fx { raw: r as i64 }
        }
    }

    /// The floor as a whole count of units: the largest whole value not
    /// above the scalar.
    pub fn floor_units(self) -> (r: i64)
        ensures
            r as int == self.raw as int / FX_SCALE as int,
            -922_337_203_687 <= r <= 922_337_203_686,
    {
        if self.raw >= 0 {
            let m: u64 = self.raw as u64;
            proof {
                vstd::arithmetic::div_mod::lemma_div_is_ordered(
                    m as int,
                    0x7fff_ffff_ffff_ffff,
                    FX_SCALE as int,
                );
            }
            (m / (FX_SCALE as u64)) as i64
        } else {
            let m: u128 = (-(self.raw as i128)) as u128;
            let s: u128 = FX_SCALE as u128;
            let q: u128 = m / s;
            let rem: u128 = m % s;
            proof {
                lemma_neg_floor(self.raw as int, q as int, rem as int);
            }
            if rem == 0 {
                -(q as i64)
            } else {
                -(q as i64) - 1
            }
        }
    }

    /// The fractional part, truncated toward zero as machine `fract`
    /// behaves: it carries the sign of the scalar.
    pub fn fract(self) -> (r: Fx)
        ensures
            r.raw == fx_tmod(self.raw as int, FX_SCALE as int),
    {
        if self.raw >= 0 {
            let m: u64 = self.raw as u64;
            Fx { raw: (m % (FX_SCALE as u64)) as i64 }
        } else {
            let m: u128 = (-(self.raw as i128)) as u128;
            let rem: u128 = m % (FX_SCALE as u128);
            Fx { raw: -(rem as i64) }
        }
    }

    /// The smaller of two scalars.
    pub fn min(self, other: Fx) -> (r: Fx)
        ensures
            r.raw == if self.raw <= other.raw {
                self.raw
            } else {
                other.raw
            },
    {
        if self.raw <= other.raw {
            self
        } else {
            other
        }
    }

    /// The larger of two scalars.
    pub fn max(self, other: Fx) -> (r: Fx)
        ensures
            r.raw == if self.raw >= other.raw {
                self.raw
            } else {
                other.raw
            },
    {
        if self.raw >= other.raw {
            self
        } else {
            other
        }
    }

    /// Whether this scalar is strictly below the other.
    pub fn lt(self, other: Fx) -> (r: bool)
        ensures
            r == (self.raw < other.raw),
    {
        self.raw < other.raw
    }

    /// Whether this scalar is at or below the other.
    pub fn le(self, other: Fx) -> (r: bool)
        ensures
            r == (self.raw <= other.raw),
    {
        self.raw <= other.raw
    }

    /// The scalar raised to a whole power; a negative power inverts the
    /// positive one, matching machine `powi`.
    pub fn powi(self, n: i32) -> (r: Fx)
        ensures
            r.raw == spec_powi(self.raw as int, n as int),
            n >= 0 ==> r.raw == fx_pow(self.raw as int, n as nat),
    {
        if n < 0 {
            let p = self.pow_nonneg((-(n as i64)) as u32);
            Fx::one().div(p)
        } else {
            self.pow_nonneg(n as u32)
        }
    }

    /// The scalar raised to a nonnegative whole power.
    pub fn pow_nonneg(self, n: u32) -> (r: Fx)
        ensures
            r.raw == fx_pow(self.raw as int, n as nat),
        decreases n,
    {
        if n == 0 {
            Fx::one()
        } else {
            let rest = self.pow_nonneg(n - 1);
            self.mul(rest)
        }
    }
}

/// The sum as a scalar value.
pub open spec fn sadd(a: Fx, b: Fx) -> Fx {
    Fx { raw: fx_add(a.raw as int, b.raw as int) as i64 }
}

/// The difference as a scalar value.
pub open spec fn ssub(a: Fx, b: Fx) -> Fx {
    Fx { raw: fx_sub(a.raw as int, b.raw as int) as i64 }
}

/// The negation as a scalar value.
pub open spec fn sneg(a: Fx) -> Fx {
    Fx { raw: fx_neg(a.raw as int) as i64 }
}

/// The product as a scalar value.
pub open spec fn smul(a: Fx, b: Fx) -> Fx {
    Fx { raw: fx_mul(a.raw as int, b.raw as int) as i64 }
}

/// The quotient as a scalar value.
pub open spec fn sdiv(a: Fx, b: Fx) -> Fx {
    Fx { raw: fx_div(a.raw as int, b.raw as int) as i64 }
}

/// The square root as a scalar value.
pub open spec fn ssqrt(a: Fx) -> Fx {
    Fx { raw: fx_sqrt(a.raw as int) as i64 }
}

/// The absolute value as a scalar value.
pub open spec fn sabs(a: Fx) -> Fx {
    Fx { raw: sat64(abs_int(a.raw as int)) as i64 }
}

/// The smaller scalar.
pub open spec fn smin(a: Fx, b: Fx) -> Fx {
    if a.raw <= b.raw {
        a
    } else {
        b
    }
}

/// The larger scalar.
pub open spec fn smax(a: Fx, b: Fx) -> Fx {
    if a.raw >= b.raw {
        a
    } else {
        b
    }
}

/// The fixed-point power: `n` truncating multiplications of `b` onto one.
pub open spec fn fx_pow(b: int, n: nat) -> int
    decreases n,
{
    if n == 0 {
        FX_SCALE as int
    } else {
        fx_mul(b, fx_pow(b, (n - 1) as nat))
    }
}

/// The fixed-point power for any whole exponent: a negative exponent
/// inverts the positive power.
pub open spec fn spec_powi(b: int, n: int) -> int {
    if n >= 0 {
        fx_pow(b, n as nat)
    } else {
        fx_div(FX_SCALE as int, fx_pow(b, (-n) as nat))
    }
}

/// Whether a machine integer is even.
pub fn even64(v: i64) -> (r: bool)
    ensures
        r == (v as int % 2 == 0),
{
    if v >= 0 {
        (v as u64) % 2 == 0
    } else {
        let m: u128 = (-(v as i128)) as u128;
        let rm: u128 = m % 2;
        proof {
            lemma_neg_mod2(v as int, rm as int);
        }
        rm == 0
    }
}

proof fn lemma_neg_mod2(v: int, rm: int)
    requires
        v < 0,
        v >= i64::MIN,
        rm == (-v) % 2,
    ensures
        (rm == 0) == (v % 2 == 0),
{
    vstd::arithmetic::div_mod::lemma_fundamental_div_mod(-v, 2);
    vstd::arithmetic::div_mod::lemma_mod_bound(-v, 2);
    let q = (-v) / 2;
    assert(-v == 2 * q + rm);
    if rm == 0 {
        assert(v == 2 * (-q) + 0);
        vstd::arithmetic::div_mod::lemma_fundamental_div_mod_converse(v, 2, -q, 0);
    } else {
        assert(v == 2 * (-q - 1) + (2 - rm));
        assert(0 <= 2 - rm < 2);
        vstd::arithmetic::div_mod::lemma_fundamental_div_mod_converse(v, 2, -q - 1, 2 - rm);
    }
}

/// Clamp a 128-bit value into the `i64` range.
fn clamp64(x: i128) -> (r: i64)
    ensures
        r as int == sat64(x as int),
{
    if x > i64::MAX as i128 {
        i64::MAX
    } else if x < i64::MIN as i128 {
        i64::MIN
    } else {
        x as i64
    }
}

/// Clamp a magnitude-and-sign value into the `i64` range.
fn signed_clamp(neg: bool, q: u128) -> (r: i64)
    ensures
        r as int == sat64(if neg {
            -(q as int)
        } else {
            q as int
        }),
{
    if neg {
        if q >= 0x8000_0000_0000_0000u128 {
            i64::MIN
        } else {
            -(q as i64)
        }
    } else {
        if q > i64::MAX as u128 {
            i64::MAX
        } else {
            q as i64
        }
    }
}

/// The integer square root of a 128-bit value below `2^88`.
fn isqrt_u128(x: u128) -> (r: u128)
    requires
        x < 0x1_0000_0000_0000_0000_0000_0000u128,
    ensures
        is_isqrt(x as int, r as int),
{
    let mut lo: u128 = 0;
    let mut hi: u128 = 0x1_0000_0000_0000u128;
    proof {
        assert(0x1_0000_0000_0000u128 * 0x1_0000_0000_0000u128
            == 0x1_0000_0000_0000_0000_0000_0000u128) by (nonlinear_arith);
    }
    while lo + 1 < hi
        invariant
            lo < hi,
            hi <= 0x1_0000_0000_0000u128,
            lo * lo <= x,
            x < hi * hi,
        decreases hi - lo,
    {
        let mid: u128 = lo + (hi - lo) / 2;
        proof {
            assert(mid * mid <= 0x1_0000_0000_0000_0000_0000_0000u128) by (nonlinear_arith)
                requires
                    mid <= 0x1_0000_0000_0000u128,
            ;
        }
        if mid * mid <= x {
            lo = mid;
        } else {
            hi = mid;
        }
    }
    proof {
        assert((lo + 1) * (lo + 1) >= hi * hi) by (nonlinear_arith)
            requires
                lo + 1 >= hi,
                hi >= 1,
        ;
    }
    lo
}

proof fn lemma_product_bounds(a: int, b: int)
    requires
        i64::MIN <= a <= i64::MAX,
        i64::MIN <= b <= i64::MAX,
    ensures
        abs_int(a * b) <= 0x4000_0000_0000_0000_0000_0000_0000_0000int,
{
    assert(abs_int(a * b) <= 0x4000_0000_0000_0000_0000_0000_0000_0000int) by (nonlinear_arith)
        requires
            i64::MIN <= a <= i64::MAX,
            i64::MIN <= b <= i64::MAX,
    ;
}

proof fn lemma_neg_floor(a: int, q: int, rem: int)
    requires
        a < 0,
        a >= i64::MIN,
        q == (-a) / (FX_SCALE as int),
        rem == (-a) % (FX_SCALE as int),
    ensures
        rem == 0 ==> -q == a / (FX_SCALE as int),
        rem != 0 ==> -q - 1 == a / (FX_SCALE as int),
        0 <= q <= 922_337_203_686,
{
    let s = FX_SCALE as int;
    vstd::arithmetic::div_mod::lemma_fundamental_div_mod(-a, s);
    vstd::arithmetic::div_mod::lemma_mod_bound(-a, s);
    assert(-a == s * q + rem);
    if rem == 0 {
        assert(a == s * (-q));
        vstd::arithmetic::div_mod::lemma_div_multiples_vanish(-q, s);
    } else {
        assert(a == s * (-q - 1) + (s - rem));
        assert(0 <= s - rem < s);
        vstd::arithmetic::div_mod::lemma_fundamental_div_mod_converse(a, s, -q - 1, s - rem);
    }
    vstd::arithmetic::div_mod::lemma_div_is_ordered(0, -a, s);
    assert(q <= 922_337_203_686) by (nonlinear_arith)
        requires
            s * q + rem == -a,
            -a <= 0x8000_0000_0000_0000,
            rem >= 0,
            s == 10_000_000,
    ;
}

} // verus!
