//! Checked fixed-point arithmetic over basis points and micro-units.
//!
//! All percentage-like parameters are integer basis points (1/10000); all
//! monetary quantities are micro-unit (1e-6 scaled) integers.  Every product
//! is taken in a 128-bit intermediate and every result is either exact or a
//! reported failure; nothing saturates silently.

use vstd::prelude::*;

verus! {

/// 100% expressed in basis points.
pub const BPS_DENOMINATOR: u64 = 10_000;

/// Micro-unit scale: one whole unit is 1e6 micro-units.
pub const MICRO_SCALE: u64 = 1_000_000;

pub open spec fn spec_abs(a: int) -> int {
    if a >= 0 {
        a
    } else {
        -a
    }
}

/// Division truncating toward zero (for a positive divisor).
pub open spec fn spec_trunc_div(a: int, d: int) -> int {
    if a >= 0 {
        a / d
    } else {
        -((-a) / d)
    }
}

/// `floor(amount * bps / 10000)`.
pub open spec fn spec_bps_mul(amount: int, bps: int) -> int {
    amount * bps / 10000
}

pub proof fn lemma_mul_le(a: int, b: int, a0: int, b0: int)
    by (nonlinear_arith)
    requires
        0 <= a <= a0,
        0 <= b <= b0,
    ensures
        a * b <= a0 * b0,
{
}

proof fn lemma_bps_mul_le_amount(amount: int, bps: int)
    by (nonlinear_arith)
    requires
        0 <= amount,
        0 <= bps <= 10000,
    ensures
        0 <= amount * bps / 10000 <= amount,
{
}

/// Retained share of `amount` at `bps` basis points, floored; never exceeds
/// `amount` because `bps` is at most 100%.
pub fn bps_mul_floor(amount: u64, bps: u16) -> (r: u64)
    requires
        bps <= 10000,
    ensures
        r == spec_bps_mul(amount as int, bps as int),
        r <= amount,
{
    proof {
        lemma_mul_le(amount as int, bps as int, u64::MAX as int, 10000);
        lemma_bps_mul_le_amount(amount as int, bps as int);
    }
    let wide: u128 = (amount as u128) * (bps as u128) / (BPS_DENOMINATOR as u128);
    wide as u64
}

/// `floor(a * b / d)` when it fits in 64 bits, `None` otherwise.
pub open spec fn spec_mul_div(a: int, b: int, d: int) -> Option<u64> {
    if a * b / d > u64::MAX {
        None
    } else {
        Some((a * b / d) as u64)
    }
}

pub proof fn lemma_div_le_dividend(x: int, d: int)
    by (nonlinear_arith)
    requires
        0 <= x,
        1 <= d,
    ensures
        0 <= x / d <= x,
{
}

/// `floor(a * b / d)` in a 128-bit intermediate, reporting a result that does
/// not fit in 64 bits as `None`.
pub fn mul_div_u64(a: u64, b: u64, d: u64) -> (r: Option<u64>)
    requires
        d > 0,
    ensures
        r == spec_mul_div(a as int, b as int, d as int),
{
    proof {
        lemma_mul_le(a as int, b as int, u64::MAX as int, u64::MAX as int);
        lemma_div_le_dividend((a as int) * (b as int), d as int);
    }
    let q: u128 = (a as u128) * (b as u128) / (d as u128);
    if q > u64::MAX as u128 {
        None
    } else {
        Some(q as u64)
    }
}

/// Relative tolerance test: `value` is accepted iff it deviates from
/// `reference` by at most `floor(reference * tol_bps / 10000)`.
///
/// The band is computed from `reference` alone, so the test is deliberately
/// asymmetric in its two value arguments, and a zero `reference` admits
/// nothing (the tolerance would be undefined).
pub open spec fn spec_within_bps(value: int, reference: int, tol_bps: int) -> bool {
    &&& reference != 0
    &&& spec_abs(value - reference) <= reference * tol_bps / 10000
}

/// Tolerance-banded cross-check of an asserted value against a reference.
pub fn within_bps(value: u64, reference: u64, tol_bps: u16) -> (r: bool)
    ensures
        r == spec_within_bps(value as int, reference as int, tol_bps as int),
        reference == 0 ==> !r,
{
    if reference == 0 {
        return false;
    }
    let diff: u64 = if value >= reference {
        value - reference
    } else {
        reference - value
    };
    proof {
        lemma_mul_le(reference as int, tol_bps as int, u64::MAX as int, u16::MAX as int);
    }
    let limit: u128 = (reference as u128) * (tol_bps as u128) / (BPS_DENOMINATOR as u128);
    (diff as u128) <= limit
}

/// Attested confidence as basis points of the attested price:
/// `floor(conf * 10000 / |price|)`; a zero price has no defined ratio.
pub fn conf_bps_from_price(price: i64, conf: u64) -> (r: Option<u128>)
    ensures
        price == 0 ==> r is None,
        price != 0 ==> r == Some((conf * 10000 / spec_abs(price as int)) as u128),
{
    if price == 0 {
        return None;
    }
    let price_abs: u128 = if price < 0 {
        (-(price as i128)) as u128
    } else {
        price as u128
    };
    proof {
        lemma_mul_le(conf as int, 10000, u64::MAX as int, 10000);
        lemma_div_le_dividend((conf as int) * 10000, price_abs as int);
    }
    Some((conf as u128) * (BPS_DENOMINATOR as u128) / price_abs)
}

/// `10^p` as a mathematical integer.
pub open spec fn pow10(p: nat) -> int
    decreases p,
{
    if p == 0 {
        1
    } else {
        10 * pow10((p - 1) as nat)
    }
}

pub proof fn lemma_pow10_pos(p: nat)
    ensures
        pow10(p) >= 1,
    decreases p,
{
    if p > 0 {
        lemma_pow10_pos((p - 1) as nat);
    }
}

pub proof fn lemma_pow10_mono(a: nat, b: nat)
    requires
        a <= b,
    ensures
        pow10(a) <= pow10(b),
    decreases b,
{
    if a < b {
        lemma_pow10_mono(a, (b - 1) as nat);
        lemma_pow10_pos((b - 1) as nat);
    }
}

/// `10^p` when it fits in 128 bits, `None` on overflow.
pub fn pow10_u128(p: u32) -> (r: Option<u128>)
    ensures
        (match r {
            Some(v) => v == pow10(p as nat),
            None => pow10(p as nat) > u128::MAX,
        }),
{
    let mut v: u128 = 1;
    let mut i: u32 = 0;
    while i < p
        invariant
            i <= p,
            v == pow10(i as nat),
            v >= 1,
        decreases p - i,
    {
        v = match v.checked_mul(10) {
            Some(nv) => nv,
            None => {
                proof {
                    lemma_pow10_mono((i + 1) as nat, p as nat);
                }
                return None;
            },
        };
        i = i + 1;
    }
    Some(v)
}

/// Scaling of an attested price `price * 10^expo` to micro-units (1e-6):
/// multiply or divide by `10^(expo + 6)` flooring toward zero.  `None` when a
/// power or product leaves the 128-bit intermediate, or when the result is
/// negative or does not fit in 64 bits.
pub open spec fn spec_scale_price_to_e6(price: int, expo: int) -> Option<u64> {
    let adj = expo + 6;
    if adj >= 0 {
        if pow10(adj as nat) > u128::MAX {
            None
        } else {
            let v = price * pow10(adj as nat);
            if v < i128::MIN || v > i128::MAX {
                None
            } else if v < 0 {
                None
            } else if v > u64::MAX {
                None
            } else {
                Some(v as u64)
            }
        }
    } else {
        if pow10((-adj) as nat) > u128::MAX {
            None
        } else {
            let v = spec_trunc_div(price, pow10((-adj) as nat));
            if v < 0 {
                None
            } else if v > u64::MAX {
                None
            } else {
                Some(v as u64)
            }
        }
    }
}

proof fn lemma_mul_mono_left(a: int, b: int, f: int)
    by (nonlinear_arith)
    requires
        0 <= a <= b,
        1 <= f,
    ensures
        a * f <= b * f,
        a <= a * f,
{
}

/// Conversion of `price * 10^expo` to a non-negative micro-unit (1e-6) value,
/// flooring toward zero.
pub fn scale_price_to_e6(price: i64, expo: i32) -> (r: Option<u64>)
    ensures
        r == spec_scale_price_to_e6(price as int, expo as int),
{
    let adj: i64 = (expo as i64) + 6;
    let neg: bool = price < 0;
    let mag: u128 = if price < 0 {
        (-(price as i128)) as u128
    } else {
        price as u128
    };
    assert(mag == spec_abs(price as int));
    if adj >= 0 {
        let f = match pow10_u128(adj as u32) {
            Some(f) => f,
            None => {
                return None;
            },
        };
        proof {
            lemma_pow10_pos((adj as int) as nat);
            if price >= 0 {
                assert((price as int) * (f as int) == (mag as int) * (f as int));
            } else {
                assert((price as int) * (f as int) == -((mag as int) * (f as int)))
                    by (nonlinear_arith)
                    requires
                        price as int == -(mag as int),
                ;
                lemma_mul_mono_left(1, mag as int, f as int);
            }
        }
        let prod = match mag.checked_mul(f) {
            Some(p) => p,
            None => {
                return None;
            },
        };
        if prod > i128::MAX as u128 {
            return None;
        }
        if neg {
            return None;
        }
        if prod > u64::MAX as u128 {
            return None;
        }
        Some(prod as u64)
    } else {
        let p: u32 = (-adj) as u32;
        let f = match pow10_u128(p) {
            Some(f) => f,
            None => {
                return None;
            },
        };
        proof {
            lemma_pow10_pos(p as nat);
        }
        let q: u128 = mag / f;
        proof {
            lemma_div_le_dividend(mag as int, f as int);
        }
        if neg {
            if q > 0 {
                return None;
            }
            return Some(0);
        }
        if q > u64::MAX as u128 {
            return None;
        }
        Some(q as u64)
    }
}

/// The floored basis-point share of a non-negative amount lies between zero
/// and the amount when the rate is at most 100%.
pub proof fn lemma_bps_mul_bounds(amount: int, bps: int)
    by (nonlinear_arith)
    requires
        0 <= amount,
        0 <= bps <= 10000,
    ensures
        0 <= spec_bps_mul(amount, bps) <= amount,
{
}

} // verus!
