//! Saturating fixed-point scalar arithmetic.
//!
//! The engine's numeric scalar is `i64`, read as a fixed-point number at a
//! caller-chosen scale. Arithmetic is total: a result outside the `i64`
//! range saturates to the nearest representable extreme, and division by
//! zero yields the signed extreme (zero for a zero dividend), the integer
//! analogue of the IEEE "infinity in, placeholder out" policy that callers
//! are expected to guard against where it matters.

use vstd::prelude::*;

verus! {

/// The percentage scale shared by ratio-style indicators.
pub const SCALE: i64 = 100;

/// The nearest `i64` to an unbounded integer.
pub open spec fn sat64(x: int) -> i64 {
    if x > i64::MAX as int {
        i64::MAX
    } else if x < i64::MIN as int {
        i64::MIN
    } else {
        x as i64
    }
}

pub open spec fn abs_int(x: int) -> int {
    if x >= 0 {
        x
    } else {
        -x
    }
}

/// Quotient rounded toward zero, the rounding of hardware integer division.
pub open spec fn tdiv(a: int, b: int) -> int
    recommends
        b != 0,
{
    let q = abs_int(a) / abs_int(b);
    if (a < 0) != (b < 0) {
        -q
    } else {
        q
    }
}

pub open spec fn add_sat(a: i64, b: i64) -> i64 {
    sat64(a + b)
}

pub open spec fn sub_sat(a: i64, b: i64) -> i64 {
    sat64(a - b)
}

pub open spec fn mul_sat(a: i64, b: i64) -> i64 {
    sat64(a * b)
}

pub open spec fn neg_sat(a: i64) -> i64 {
    sat64(-a)
}

/// Total division: truncated quotient, saturated into range; a zero divisor
/// yields the signed extreme, and zero for a zero dividend.
pub open spec fn div_sat(a: i64, b: i64) -> i64 {
    if b == 0 {
        if a > 0 {
            i64::MAX
        } else if a < 0 {
            i64::MIN
        } else {
            0
        }
    } else {
        sat64(tdiv(a as int, b as int))
    }
}

/// Magnitude, saturated into range (the magnitude of the least scalar is
/// the greatest).
pub open spec fn abs_sat(a: i64) -> i64 {
    if a < 0 {
        neg_sat(a)
    } else {
        a
    }
}

pub fn exec_abs_sat(a: i64) -> (r: i64)
    ensures
        r == abs_sat(a),
{
    if a < 0 {
        exec_neg_sat(a)
    } else {
        a
    }
}

/// Division by a positive divisor cancels multiplication by it exactly,
/// also for negative multiplicands.
pub proof fn lemma_tdiv_mul_exact(a: int, b: int)
    requires
        b > 0,
    ensures
        tdiv(a * b, b) == a,
{
    if a >= 0 {
        assert(a * b >= 0) by (nonlinear_arith)
            requires
                a >= 0,
                b > 0,
        ;
        vstd::arithmetic::div_mod::lemma_div_multiples_vanish(a, b);
        assert(abs_int(a * b) == a * b && abs_int(b) == b);
        assert((a * b) / b == a);
    } else {
        assert(a * b < 0 && (-a) * b == -(a * b)) by (nonlinear_arith)
            requires
                a < 0,
                b > 0,
        ;
        vstd::arithmetic::div_mod::lemma_div_multiples_vanish(-a, b);
        assert(abs_int(a * b) == (-a) * b && abs_int(b) == b);
        assert(((-a) * b) / b == -a);
    }
}

/// Truncated division by a positive divisor is monotone in the dividend.
pub proof fn lemma_tdiv_monotone(a1: int, a2: int, b: int)
    requires
        a1 <= a2,
        b > 0,
    ensures
        tdiv(a1, b) <= tdiv(a2, b),
{
    if 0 <= a1 {
        vstd::arithmetic::div_mod::lemma_div_is_ordered(a1, a2, b);
    } else if a2 < 0 {
        vstd::arithmetic::div_mod::lemma_div_is_ordered(-a2, -a1, b);
    } else {
        vstd::arithmetic::div_mod::lemma_div_pos_is_pos(-a1, b);
        vstd::arithmetic::div_mod::lemma_div_pos_is_pos(a2, b);
    }
}

/// Saturate a wide intermediate back into the scalar range.
pub fn sat_narrow(x: i128) -> (r: i64)
    ensures
        r == sat64(x as int),
{
    if x > i64::MAX as i128 {
        i64::MAX
    } else if x < i64::MIN as i128 {
        i64::MIN
    } else {
        x as i64
    }
}

/// Truncated division on wide intermediates, computed on magnitudes so the
/// rounding is toward zero for every sign combination.
pub fn tdiv_wide(a: i128, b: i128) -> (q: i128)
    requires
        b != 0,
        a > i128::MIN,
        b > i128::MIN,
    ensures
        q == tdiv(a as int, b as int),
{
    let ua: u128 = if a >= 0 {
        a as u128
    } else {
        (-a) as u128
    };
    let ub: u128 = if b >= 0 {
        b as u128
    } else {
        (-b) as u128
    };
    let uq: u128 = ua / ub;
    assert(ua as int == abs_int(a as int));
    assert(ub as int == abs_int(b as int));
    assert(uq as int == abs_int(a as int) / abs_int(b as int));
    assert(uq <= ua) by {
        vstd::arithmetic::div_mod::lemma_div_basics_5(ua as int, ub as int);
    }
    if (a < 0) != (b < 0) {
        -(uq as i128)
    } else {
        uq as i128
    }
}

pub fn exec_add_sat(a: i64, b: i64) -> (r: i64)
    ensures
        r == add_sat(a, b),
{
    sat_narrow(a as i128 + b as i128)
}

pub fn exec_sub_sat(a: i64, b: i64) -> (r: i64)
    ensures
        r == sub_sat(a, b),
{
    sat_narrow(a as i128 - b as i128)
}

pub fn exec_mul_sat(a: i64, b: i64) -> (r: i64)
    ensures
        r == mul_sat(a, b),
{
    assert(-0x4000_0000_0000_0000_0000_0000_0000_0000 <= (a as int) * (b as int)
        <= 0x4000_0000_0000_0000_0000_0000_0000_0000) by (nonlinear_arith)
        requires
            i64::MIN <= a <= i64::MAX,
            i64::MIN <= b <= i64::MAX,
    ;
    sat_narrow(a as i128 * b as i128)
}

pub fn exec_neg_sat(a: i64) -> (r: i64)
    ensures
        r == neg_sat(a),
{
    sat_narrow(-(a as i128))
}

pub fn exec_div_sat(a: i64, b: i64) -> (r: i64)
    ensures
        r == div_sat(a, b),
{
    if b == 0 {
        if a > 0 {
            i64::MAX
        } else if a < 0 {
            i64::MIN
        } else {
            0
        }
    } else {
        sat_narrow(tdiv_wide(a as i128, b as i128))
    }
}

} // verus!
