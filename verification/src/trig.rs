//! Fixed-point sine, cosine and tangent.
//!
//! Angles are radians in `Fx` units. The sine is computed by reducing the
//! angle into one quarter period and evaluating a truncated Taylor series at
//! an internal scale of `10^12`, then rounding back to scalar units; the
//! result each function returns is pinned down exactly by a spec-level
//! mirror of that computation.

use vstd::prelude::*;
use crate::fx::{Fx, fx_add, fx_div};

verus! {

/// One half turn (pi), in raw scalar units.
pub const PI_RAW: i64 = 31_415_927;

/// One full turn (two pi), in raw scalar units.
pub const TWO_PI_RAW: i64 = 62_831_853;

/// One quarter turn (pi over two), in raw scalar units.
pub const HALF_PI_RAW: i64 = 15_707_963;

/// The internal working scale of the sine polynomial.
pub const SIN_SCALE: u128 = 1_000_000_000_000;

/// The sine polynomial on a folded angle `x` in `[0, HALF_PI_RAW + 1]`:
/// a Horner-evaluated truncated Taylor series at scale `10^12`, rounded
/// to the nearest raw scalar unit.
pub open spec fn sin_quarter(x: int) -> int {
    let xb = x * 100_000;
    let x2 = xb * xb / 1_000_000_000_000;
    let u6 = 1_000_000_000_000 - x2 / 156;
    let u5 = 1_000_000_000_000 - x2 * u6 / 110_000_000_000_000;
    let u4 = 1_000_000_000_000 - x2 * u5 / 72_000_000_000_000;
    let u3 = 1_000_000_000_000 - x2 * u4 / 42_000_000_000_000;
    let u2 = 1_000_000_000_000 - x2 * u3 / 20_000_000_000_000;
    let u1 = 1_000_000_000_000 - x2 * u2 / 6_000_000_000_000;
    (xb * u1 / 1_000_000_000_000 + 50_000) / 100_000
}

/// The sine of a raw angle: reduce into one turn, fold into a quarter
/// turn by the sine's symmetries, and evaluate the polynomial.
pub open spec fn spec_sin(a: int) -> int {
    let m = a % (TWO_PI_RAW as int);
    if m <= HALF_PI_RAW as int {
        sin_quarter(m)
    } else if m <= PI_RAW as int {
        sin_quarter(PI_RAW as int - m)
    } else if m <= PI_RAW as int + HALF_PI_RAW as int {
        -sin_quarter(m - PI_RAW as int)
    } else {
        -sin_quarter(TWO_PI_RAW as int - m)
    }
}

/// The cosine as the sine shifted by a quarter turn.
pub open spec fn spec_cos(a: int) -> int {
    spec_sin(fx_add(a, HALF_PI_RAW as int))
}

/// The tangent as the quotient of sine and cosine.
pub open spec fn spec_tan(a: int) -> int {
    fx_div(spec_sin(a), spec_cos(a))
}

impl Fx {
    /// The sine of the scalar, taken as an angle in radians.
    pub fn sin(self) -> (r: Fx)
        ensures
            r.raw == spec_sin(self.raw as int),
    {
        let m: u64 = reduce_turn(self.raw);
        let (x, negate): (u64, bool) = if m <= HALF_PI_RAW as u64 {
            (m, false)
        } else if m <= PI_RAW as u64 {
            (PI_RAW as u64 - m, false)
        } else if m <= (PI_RAW + HALF_PI_RAW) as u64 {
            (m - PI_RAW as u64, true)
        } else {
            (TWO_PI_RAW as u64 - m, true)
        };
        let s: i64 = sin_quarter_exec(x);
        if negate {
            Fx { raw: -s }
        } else {
            Fx { raw: s }
        }
    }

    /// The cosine of the scalar, taken as an angle in radians.
    pub fn cos(self) -> (r: Fx)
        ensures
            r.raw == spec_cos(self.raw as int),
    {
        self.add(Fx { raw: HALF_PI_RAW }).sin()
    }

    /// The tangent of the scalar, taken as an angle in radians.
    pub fn tan(self) -> (r: Fx)
        ensures
            r.raw == spec_tan(self.raw as int),
    {
        self.sin().div(self.cos())
    }
}

/// Reduce a raw angle into `[0, TWO_PI_RAW)` by the Euclidean remainder.
fn reduce_turn(a: i64) -> (m: u64)
    ensures
        m as int == a as int % (TWO_PI_RAW as int),
        m < TWO_PI_RAW as u64,
{
    if a >= 0 {
        (a as u64) % (TWO_PI_RAW as u64)
    } else {
        let rm: u128 = ((-(a as i128)) as u128) % (TWO_PI_RAW as u128);
        proof {
            lemma_neg_mod(a as int, rm as int);
        }
        if rm == 0 {
            0
        } else {
            TWO_PI_RAW as u64 - rm as u64
        }
    }
}

/// The sine polynomial on a folded angle, at internal scale `10^12`.
fn sin_quarter_exec(x: u64) -> (r: i64)
    requires
        x <= 15_707_964,
    ensures
        r as int == sin_quarter(x as int),
        0 <= r <= 16_000_000,
{
    let s2: u128 = SIN_SCALE;
    let xb: u128 = (x as u128) * 100_000;
    proof {
        assert(xb * xb <= 2_470_000_000_000_000_000_000_000) by (nonlinear_arith)
            requires
                xb <= 1_570_796_400_000,
        ;
        vstd::arithmetic::div_mod::lemma_div_is_ordered(
            (xb * xb) as int,
            2_470_000_000_000_000_000_000_000,
            1_000_000_000_000,
        );
    }
    let x2: u128 = xb * xb / s2;
    proof {
        lemma_horner_step(x2 as int, 1_000_000_000_000, 156_000_000_000_000);
        vstd::arithmetic::div_mod::lemma_div_is_ordered(x2 as int, 2_470_000_000_000, 156);
    }
    let u6: u128 = s2 - x2 / 156;
    proof {
        lemma_horner_step(x2 as int, u6 as int, 110_000_000_000_000);
    }
    let u5: u128 = s2 - x2 * u6 / 110_000_000_000_000;
    proof {
        lemma_horner_step(x2 as int, u5 as int, 72_000_000_000_000);
    }
    let u4: u128 = s2 - x2 * u5 / 72_000_000_000_000;
    proof {
        lemma_horner_step(x2 as int, u4 as int, 42_000_000_000_000);
    }
    let u3: u128 = s2 - x2 * u4 / 42_000_000_000_000;
    proof {
        lemma_horner_step(x2 as int, u3 as int, 20_000_000_000_000);
    }
    let u2: u128 = s2 - x2 * u3 / 20_000_000_000_000;
    proof {
        lemma_horner_step(x2 as int, u2 as int, 6_000_000_000_000);
    }
    let u1: u128 = s2 - x2 * u2 / 6_000_000_000_000;
    proof {
        assert(xb * u1 <= 1_570_796_400_000 * 1_000_000_000_000) by (nonlinear_arith)
            requires
                xb <= 1_570_796_400_000,
                u1 <= 1_000_000_000_000,
        ;
        vstd::arithmetic::div_mod::lemma_div_is_ordered(
            (xb * u1) as int,
            1_570_796_400_000_000_000_000_000,
            1_000_000_000_000,
        );
        vstd::arithmetic::div_mod::lemma_div_is_ordered(
            (xb * u1) as int / (s2 as int) + 50_000,
            1_570_796_450_000,
            100_000,
        );
    }
    let r: u128 = (xb * u1 / s2 + 50_000) / 100_000;
    r as i64
}

/// One bound for a Horner step: the quotient stays below the working scale,
/// so the following subtraction stays in range.
proof fn lemma_horner_step(x2: int, u: int, d: int)
    requires
        0 <= x2 <= 2_470_000_000_000,
        0 <= u <= 1_000_000_000_000,
        6_000_000_000_000 <= d,
    ensures
        0 <= x2 * u / d <= 1_000_000_000_000,
        x2 * u <= 2_470_000_000_000_000_000_000_000,
{
    assert(x2 * u <= 2_470_000_000_000_000_000_000_000) by (nonlinear_arith)
        requires
            0 <= x2 <= 2_470_000_000_000,
            0 <= u <= 1_000_000_000_000,
    ;
    vstd::arithmetic::div_mod::lemma_div_pos_is_pos(x2 * u, d);
    assert(x2 * u / d <= 1_000_000_000_000) by (nonlinear_arith)
        requires
            0 <= x2 * u <= 2_470_000_000_000_000_000_000_000,
            6_000_000_000_000 <= d,
    ;
}

/// The Euclidean remainder of a negative value from the remainder of its
/// magnitude.
proof fn lemma_neg_mod(a: int, rm: int)
    requires
        a < 0,
        a >= i64::MIN,
        rm == (-a) % (TWO_PI_RAW as int),
    ensures
        rm == 0 ==> a % (TWO_PI_RAW as int) == 0,
        rm != 0 ==> a % (TWO_PI_RAW as int) == TWO_PI_RAW as int - rm,
{
    let t = TWO_PI_RAW as int;
    vstd::arithmetic::div_mod::lemma_fundamental_div_mod(-a, t);
    vstd::arithmetic::div_mod::lemma_mod_bound(-a, t);
    let q = (-a) / t;
    assert(-a == t * q + rm);
    if rm == 0 {
        assert(a == t * (-q) + 0);
        vstd::arithmetic::div_mod::lemma_fundamental_div_mod_converse(a, t, -q, 0);
    } else {
        assert(a == t * (-q - 1) + (t - rm));
        assert(0 <= t - rm < t);
        vstd::arithmetic::div_mod::lemma_fundamental_div_mod_converse(a, t, -q - 1, t - rm);
    }
}

} // verus!
