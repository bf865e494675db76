//! Saturating integer arithmetic used by the scoring pipeline. Scores only
//! ever grow during a play, so every operation clamps at the top of `u64`
//! instead of overflowing, and the clamping is part of each contract.

use vstd::prelude::*;

verus! {

/// Clamp a mathematical integer into the `u64` range from above.
pub open spec fn cap(x: int) -> int {
    if x > u64::MAX {
        u64::MAX as int
    } else {
        x
    }
}

/// Clamp a mathematical integer into the `u64` range from both sides
/// (used for signed deltas applied to an unsigned accumulator).
pub open spec fn cap_signed(x: int) -> int {
    if x < 0 {
        0
    } else {
        cap(x)
    }
}

/// Saturating addition on `u64`.
pub fn add_sat(a: u64, b: u64) -> (r: u64)
    ensures
        r == cap(a + b),
{
    match a.checked_add(b) {
        Some(s) => s,
        None => u64::MAX,
    }
}

/// Saturating multiplication on `u64`.
pub fn mul_sat(a: u64, b: u64) -> (r: u64)
    ensures
        r == cap(a * b),
{
    match a.checked_mul(b) {
        Some(p) => p,
        None => u64::MAX,
    }
}

/// `a * num / den`, computed exactly in 128 bits and clamped into `u64`.
/// This is the one scaling operation of the pipeline: multipliers are
/// rationals with a small fixed denominator.
pub fn mul_div_sat(a: u64, num: u64, den: u64) -> (r: u64)
    requires
        den > 0,
    ensures
        r == cap((a * num) / (den as int)),
{
    proof {
        assert(a * num <= u64::MAX * u64::MAX) by (nonlinear_arith)
            requires
                a <= u64::MAX,
                num <= u64::MAX,
        ;
    }
    let wide: u128 = (a as u128) * (num as u128) / (den as u128);
    if wide > u64::MAX as u128 {
        u64::MAX
    } else {
        wide as u64
    }
}

/// Clamp a mathematical integer into the `i64` range.
pub open spec fn cap_i64(x: int) -> int {
    if x > i64::MAX {
        i64::MAX as int
    } else if x < i64::MIN {
        i64::MIN as int
    } else {
        x
    }
}

/// Saturating addition on `i64`.
pub fn add_sat_i64(a: i64, b: i64) -> (r: i64)
    ensures
        r == cap_i64(a + b),
{
    match a.checked_add(b) {
        Some(s) => s,
        None => if b > 0 {
            i64::MAX
        } else {
            i64::MIN
        },
    }
}

/// A value scaled by a multiplier given in hundredths, saturating in
/// magnitude: the product of the absolute values is clamped at `i64::MAX`,
/// divided by 100, and given the sign of the exact product.
pub open spec fn spec_scaled_delta(value: int, multiplier: int) -> int {
    let mag = cap_i64((vstd::math::abs(value) * vstd::math::abs(multiplier)) as int) / 100;
    if (value < 0) != (multiplier < 0) {
        -mag
    } else {
        mag
    }
}

/// Executable counterpart of [`spec_scaled_delta`].
pub fn scaled_delta(value: i64, multiplier: i64) -> (r: i64)
    ensures
        r == spec_scaled_delta(value as int, multiplier as int),
{
    let av: u64 = if value >= 0 {
        value as u64
    } else if value == i64::MIN {
        9223372036854775808u64
    } else {
        (-value) as u64
    };
    let am: u64 = if multiplier >= 0 {
        multiplier as u64
    } else if multiplier == i64::MIN {
        9223372036854775808u64
    } else {
        (-multiplier) as u64
    };
    proof {
        assert(av == vstd::math::abs(value as int));
        assert(am == vstd::math::abs(multiplier as int));
        assert(av * am <= u64::MAX * u64::MAX) by (nonlinear_arith)
            requires
                av <= u64::MAX,
                am <= u64::MAX,
        ;
    }
    let p: u128 = (av as u128) * (am as u128);
    let capped: u64 = if p > i64::MAX as u128 {
        i64::MAX as u64
    } else {
        p as u64
    };
    let mag: u64 = capped / 100;
    if (value < 0) != (multiplier < 0) {
        -(mag as i64)
    } else {
        mag as i64
    }
}

/// Saturating addition of a signed delta to an unsigned accumulator,
/// clamping at zero from below and at `u64::MAX` from above.
pub fn add_delta_sat(a: u64, d: i64) -> (r: u64)
    ensures
        r == cap_signed(a + d),
{
    if d >= 0 {
        add_sat(a, d as u64)
    } else if d == i64::MIN {
        // The magnitude of i64::MIN does not fit in i64; treat it directly.
        if a >= 9223372036854775808u64 {
            a - 9223372036854775808u64
        } else {
            0
        }
    } else {
        let m: u64 = (-d) as u64;
        if a >= m {
            a - m
        } else {
            0
        }
    }
}

} // verus!
