//! The smoothing module: five recursive filters selected through one
//! polymorphic smoothing kind. Each filter produces a new equal-length
//! series; the first meaningful value appears once enough samples have been
//! consumed, earlier positions hold the neutral placeholder or a
//! partially-seeded running value, and the algorithm never reads beyond the
//! series bounds.
//!
//! Window sums are accumulated exactly in wide intermediates and divided
//! with truncation, so every filter is a total function of its input with a
//! closed-form recurrence stated in its contract.

use vstd::prelude::*;
use crate::math::mul_sat;
use crate::math::lemma_tdiv_monotone;
use crate::math::lemma_tdiv_mul_exact;
use crate::math::sat64;
use crate::math::sat_narrow;
use crate::math::sub_sat;
use crate::math::tdiv;
use crate::math::tdiv_wide;
use crate::series::Series;

verus! {

/// The closed set of smoothing algorithms, pure configuration data
/// dispatched on internally.
#[derive(Clone, Copy, Debug, PartialEq, Eq, Structural)]
pub enum Smooth {
    /// Arithmetic mean of the trailing window.
    SMA,
    /// Exponential average seeded by the first sample.
    EMA,
    /// Wilder-style smoothed running average.
    SMMA,
    /// Linearly weighted trailing window.
    WMA,
    /// Hull average: weighted averages re-smoothed at the rounded square
    /// root of the period.
    HMA,
}

/// Sum of the `count` values ending at position `end`.
pub open spec fn win_sum(s: Seq<i64>, end: int, count: int) -> int
    decreases count,
{
    if count <= 0 {
        0
    } else {
        win_sum(s, end - 1, count - 1) + s[end]
    }
}

/// Linearly weighted sum of the `count` values ending at position `end`:
/// the newest value carries weight `count`, the oldest weight `1`.
pub open spec fn wsum(s: Seq<i64>, end: int, count: int) -> int
    decreases count,
{
    if count <= 0 {
        0
    } else {
        wsum(s, end - 1, count - 1) + count * s[end]
    }
}

/// Simple average at one position: the mean of the trailing window,
/// clipped at the front of the series so early positions average the
/// prefix seen so far.
pub open spec fn sma_at(s: Seq<i64>, period: int, i: int) -> i64 {
    let count = if i + 1 < period {
        i + 1
    } else {
        period
    };
    sat64(tdiv(win_sum(s, i, count), count))
}

pub open spec fn sma_spec(s: Seq<i64>, period: int) -> Seq<i64> {
    Seq::new(s.len(), |i: int| sma_at(s, period, i))
}

/// One step of the exponential recurrence with `alpha = 2 / (period + 1)`.
pub open spec fn ema_step(prev: i64, x: i64, period: int) -> i64 {
    sat64(prev + tdiv(2 * (x - prev), period + 1))
}

/// Exponential average at one position: seeded by the first sample, then
/// `ema[i] = ema[i-1] + alpha * (x[i] - ema[i-1])`.
pub open spec fn ema_at(s: Seq<i64>, period: int, i: int) -> i64
    decreases i,
{
    if i <= 0 {
        s[0]
    } else {
        ema_step(ema_at(s, period, i - 1), s[i], period)
    }
}

pub open spec fn ema_spec(s: Seq<i64>, period: int) -> Seq<i64> {
    Seq::new(s.len(), |i: int| ema_at(s, period, i))
}

/// One step of the Wilder recurrence: `(prev * (period - 1) + x) / period`.
pub open spec fn smma_step(prev: i64, x: i64, period: int) -> i64 {
    sat64(tdiv(prev * (period - 1) + x, period))
}

/// Smoothed (running) average at one position: the neutral placeholder
/// during warm-up, a simple average of the first `period` samples at the
/// seed position, the Wilder recurrence afterwards.
pub open spec fn smma_at(s: Seq<i64>, period: int, i: int) -> i64
    decreases i,
{
    if period < 1 || i < period - 1 {
        0i64
    } else if i == period - 1 {
        sat64(tdiv(win_sum(s, i, period), period))
    } else {
        smma_step(smma_at(s, period, i - 1), s[i], period)
    }
}

pub open spec fn smma_spec(s: Seq<i64>, period: int) -> Seq<i64> {
    Seq::new(s.len(), |i: int| smma_at(s, period, i))
}

/// Weighted average at one position: the weighted window sum normalized by
/// the weight total `period * (period + 1) / 2`, the neutral placeholder
/// until a full window exists.
pub open spec fn wma_at(s: Seq<i64>, period: int, i: int) -> i64 {
    if i < period - 1 {
        0i64
    } else {
        sat64(tdiv(wsum(s, i, period), period * (period + 1) / 2))
    }
}

pub open spec fn wma_spec(s: Seq<i64>, period: int) -> Seq<i64> {
    Seq::new(s.len(), |i: int| wma_at(s, period, i))
}

pub open spec fn is_floor_sqrt(p: int, f: int) -> bool {
    0 <= f && f * f <= p && p < (f + 1) * (f + 1)
}

pub open spec fn floor_sqrt(p: int) -> int {
    choose|f: int| is_floor_sqrt(p, f)
}

/// The square root of `p` rounded to the nearest integer.
pub open spec fn round_sqrt(p: int) -> int {
    let f = floor_sqrt(p);
    if p - f * f > f {
        f + 1
    } else {
        f
    }
}

/// The de-lagged intermediate of the Hull average: twice the half-period
/// weighted average minus the full-period one.
pub open spec fn hma_raw_spec(s: Seq<i64>, period: int) -> Seq<i64> {
    Seq::new(
        s.len(),
        |i: int| sub_sat(mul_sat(wma_at(s, period / 2, i), 2), wma_at(s, period, i)),
    )
}

/// Hull average: the de-lagged intermediate re-smoothed by a weighted
/// average at the rounded square root of the period.
pub open spec fn hma_spec(s: Seq<i64>, period: int) -> Seq<i64> {
    wma_spec(hma_raw_spec(s, period), round_sqrt(period))
}

/// The period is acceptable for the kind: positive, within the series
/// length, small enough for exact wide accumulation where a window sum is
/// taken, and at least two for the Hull composition.
pub open spec fn valid_period(kind: Smooth, period: int, len: int) -> bool {
    1 <= period <= len && (kind != Smooth::EMA ==> period <= 0x8000_0000) && (kind == Smooth::HMA
        ==> period >= 2)
}

/// The one uniform dispatch over the smoothing kind.
pub open spec fn smooth_spec(s: Seq<i64>, kind: Smooth, period: int) -> Seq<i64> {
    match kind {
        Smooth::SMA => sma_spec(s, period),
        Smooth::EMA => ema_spec(s, period),
        Smooth::SMMA => smma_spec(s, period),
        Smooth::WMA => wma_spec(s, period),
        Smooth::HMA => hma_spec(s, period),
    }
}

/// A window sum of `count` scalars stays within `count` scalar ranges.
pub proof fn lemma_win_sum_bound(s: Seq<i64>, end: int, count: int)
    requires
        0 <= count,
    ensures
        -(count * 0x8000_0000_0000_0000) <= win_sum(s, end, count) <= count
            * 0x8000_0000_0000_0000,
    decreases count,
{
    if count > 0 {
        lemma_win_sum_bound(s, end - 1, count - 1);
    }
}

/// A weighted window sum of `count` scalars stays within `count * count`
/// scalar ranges.
pub proof fn lemma_wsum_bound(s: Seq<i64>, end: int, count: int)
    requires
        0 <= count,
    ensures
        -(count * count * 0x8000_0000_0000_0000) <= wsum(s, end, count) <= count * count
            * 0x8000_0000_0000_0000,
    decreases count,
{
    if count > 0 {
        lemma_wsum_bound(s, end - 1, count - 1);
        assert((count - 1) * (count - 1) + count <= count * count) by (nonlinear_arith)
            requires
                count >= 1,
        ;
        assert(count * (0x8000_0000_0000_0000int) >= 0x8000_0000_0000_0000 && (count - 1) * (count
            - 1) * 0x8000_0000_0000_0000 + count * 0x8000_0000_0000_0000 <= count * count
            * 0x8000_0000_0000_0000) by (nonlinear_arith)
            requires
                count >= 1,
        ;
        assert(-(count * 0x8000_0000_0000_0000int) <= count * s[end] <= count
            * 0x8000_0000_0000_0000) by (nonlinear_arith)
            requires
                count >= 1,
                i64::MIN <= s[end] <= i64::MAX,
        ;
    }
}

/// One exponential step from `prev` toward a target `x` lands between the
/// two: the filter moves toward its input and never overshoots.
pub proof fn lemma_ema_step_bounded(prev: i64, x: i64, period: int)
    requires
        period >= 1,
    ensures
        prev <= x ==> prev <= ema_step(prev, x, period) <= x,
        x <= prev ==> x <= ema_step(prev, x, period) <= prev,
{
    let d = x - prev;
    let q = tdiv(2 * d, period + 1);
    assert(tdiv(0, period + 1) == 0) by {
        lemma_tdiv_mul_exact(0, period + 1);
    }
    if d >= 0 {
        lemma_tdiv_monotone(0, 2 * d, period + 1);
        assert(2 * d <= d * (period + 1)) by (nonlinear_arith)
            requires
                d >= 0,
                period >= 1,
        ;
        lemma_tdiv_monotone(2 * d, d * (period + 1), period + 1);
        lemma_tdiv_mul_exact(d, period + 1);
        assert(0 <= q <= d);
    } else {
        lemma_tdiv_monotone(2 * d, 0, period + 1);
        assert(d * (period + 1) <= 2 * d) by (nonlinear_arith)
            requires
                d < 0,
                period >= 1,
        ;
        lemma_tdiv_monotone(d * (period + 1), 2 * d, period + 1);
        lemma_tdiv_mul_exact(d, period + 1);
        assert(d <= q <= 0);
    }
}

/// One Wilder step from `prev` toward a target `x` lands between the two.
pub proof fn lemma_smma_step_bounded(prev: i64, x: i64, period: int)
    requires
        period >= 1,
    ensures
        prev <= x ==> prev <= smma_step(prev, x, period) <= x,
        x <= prev ==> x <= smma_step(prev, x, period) <= prev,
{
    let num = prev * (period - 1) + x;
    if prev <= x {
        assert(prev * period <= num && num <= x * period) by (nonlinear_arith)
            requires
                prev <= x,
                period >= 1,
                num == prev * (period - 1) + x,
        ;
        lemma_tdiv_monotone(prev * period, num, period);
        lemma_tdiv_monotone(num, x * period, period);
        lemma_tdiv_mul_exact(prev as int, period);
        lemma_tdiv_mul_exact(x as int, period);
    } else {
        assert(x * period <= num && num <= prev * period) by (nonlinear_arith)
            requires
                x <= prev,
                period >= 1,
                num == prev * (period - 1) + x,
        ;
        lemma_tdiv_monotone(x * period, num, period);
        lemma_tdiv_monotone(num, prev * period, period);
        lemma_tdiv_mul_exact(prev as int, period);
        lemma_tdiv_mul_exact(x as int, period);
    }
}

/// `x` lies in the closed interval spanned by `a` and `b`, whichever way
/// round they are.
pub open spec fn within(x: i64, a: i64, b: i64) -> bool {
    (a <= x <= b) || (b <= x <= a)
}

/// If the input is the constant `c` from position `k` on, the exponential
/// average from `k` on stays between its value at `k` and `c`: it is
/// monotonically bounded by the constant it is fed.
pub proof fn lemma_ema_constant_input_bounded(s: Seq<i64>, period: int, k: int, c: i64, i: int)
    requires
        period >= 1,
        0 <= k <= i < s.len(),
        forall|j: int| k <= j < s.len() ==> s[j] == c,
    ensures
        within(ema_at(s, period, i), ema_at(s, period, k), c),
        i > k ==> within(ema_at(s, period, i), ema_at(s, period, i - 1), c),
    decreases i - k,
{
    if i > k {
        lemma_ema_constant_input_bounded(s, period, k, c, i - 1);
        lemma_ema_step_bounded(ema_at(s, period, i - 1), c, period);
    }
}

/// The Wilder mirror of `lemma_ema_constant_input_bounded`, from the seed
/// position on.
pub proof fn lemma_smma_constant_input_bounded(s: Seq<i64>, period: int, k: int, c: i64, i: int)
    requires
        period >= 1,
        period - 1 <= k <= i < s.len(),
        forall|j: int| k <= j < s.len() ==> s[j] == c,
    ensures
        within(smma_at(s, period, i), smma_at(s, period, k), c),
        i > k ==> within(smma_at(s, period, i), smma_at(s, period, i - 1), c),
    decreases i - k,
{
    if i > k {
        lemma_smma_constant_input_bounded(s, period, k, c, i - 1);
        lemma_smma_step_bounded(smma_at(s, period, i - 1), c, period);
    }
}

/// Peeling the oldest value off a window sum.
pub proof fn lemma_win_sum_peel_oldest(s: Seq<i64>, end: int, count: int)
    requires
        count >= 1,
    ensures
        win_sum(s, end, count) == win_sum(s, end, count - 1) + s[end - count + 1],
    decreases count,
{
    if count == 1 {
        assert(win_sum(s, end, 1) == win_sum(s, end - 1, 0) + s[end]);
        assert(win_sum(s, end - 1, 0) == 0);
        assert(win_sum(s, end, 0) == 0);
    } else {
        lemma_win_sum_peel_oldest(s, end - 1, count - 1);
        assert(win_sum(s, end, count) == win_sum(s, end - 1, count - 1) + s[end]);
        assert(win_sum(s, end, count - 1) == win_sum(s, end - 1, count - 2) + s[end]);
    }
}

/// Floor square root of a positive bounded integer.
fn isqrt(p: usize) -> (f: usize)
    requires
        1 <= p <= 0x8000_0000,
    ensures
        is_floor_sqrt(p as int, f as int),
        f as int == floor_sqrt(p as int),
        1 <= f <= p,
{
    let mut f: usize = 1;
    let mut sq: u64 = 4;
    while sq <= p as u64
        invariant
            1 <= f <= p <= 0x8000_0000,
            f * f <= p,
            sq as int == (f as int + 1) * (f as int + 1),
        decreases p - f,
    {
        proof {
            assert((f + 1) * (f + 1) <= p ==> f + 1 <= p) by (nonlinear_arith)
                requires
                    f >= 1,
            ;
        }
        f = f + 1;
        proof {
            assert((f as int + 1) * (f as int + 1) == (f as int) * (f as int) + 2 * (f as int)
                + 1) by (nonlinear_arith);
            assert((f as int + 1) * (f as int + 1) < 0x8000_0000_0000_0000) by (nonlinear_arith)
                requires
                    1 <= f <= 0x8000_0001,
            ;
        }
        sq = sq + 2 * (f as u64) + 1;
    }
    proof {
        assert(is_floor_sqrt(p as int, f as int));
        let g = floor_sqrt(p as int);
        assert(is_floor_sqrt(p as int, g)) by {
            assert(is_floor_sqrt(p as int, f as int));
        }
        assert(g == f as int) by (nonlinear_arith)
            requires
                0 <= g,
                g * g <= p,
                p < (g + 1) * (g + 1),
                0 <= f,
                f * f <= p,
                p < (f as int + 1) * (f as int + 1),
        ;
    }
    f
}

/// Square root rounded to the nearest integer, as the Hull average uses it.
fn isqrt_round(p: usize) -> (r: usize)
    requires
        1 <= p <= 0x8000_0000,
    ensures
        r as int == round_sqrt(p as int),
        1 <= r <= p,
{
    let f = isqrt(p);
    proof {
        assert(f * f <= p && f >= 1);
        assert(p - f * f > f ==> f + 1 <= p) by (nonlinear_arith)
            requires
                f >= 1,
                f * f <= p,
        ;
    }
    if p - f * f > f {
        f + 1
    } else {
        f
    }
}

impl Series<i64> {
    /// Simple moving average: the mean of the trailing `period` window,
    /// clipped at the front of the series, with truncated division.
    pub fn sma(&self, period: usize) -> (r: Series<i64>)
        requires
            1 <= period <= self@.len(),
            period <= 0x8000_0000,
        ensures
            r@ == sma_spec(self@, period as int),
            r@.len() == self@.len(),
    {
        let n = self.len();
        let mut out: Vec<i64> = Vec::new();
        let mut i: usize = 0;
        while i < n
            invariant
                i <= n,
                n == self@.len(),
                1 <= period <= n,
                period <= 0x8000_0000,
                out@.len() == i,
                forall|t: int| 0 <= t < i ==> out@[t] == sma_at(self@, period as int, t),
            decreases n - i,
        {
            let count: usize = if i + 1 < period {
                i + 1
            } else {
                period
            };
            let mut acc: i128 = 0;
            let mut m: usize = 0;
            while m < count
                invariant
                    m <= count,
                    1 <= count <= i + 1,
                    count <= 0x8000_0000,
                    i < n == self@.len(),
                    acc == win_sum(self@, i as int, m as int),
                decreases count - m,
            {
                proof {
                    lemma_win_sum_bound(self@, i as int, m as int);
                    lemma_win_sum_peel_oldest(self@, i as int, m + 1);
                }
                acc = acc + (*self.get(i - m)) as i128;
                m = m + 1;
            }
            proof {
                lemma_win_sum_bound(self@, i as int, count as int);
            }
            out.push(sat_narrow(tdiv_wide(acc, count as i128)));
            i = i + 1;
        }
        assert(out@ =~= sma_spec(self@, period as int));
        Series::from_vec(out)
    }

    /// Exponential moving average, seeded by the first sample.
    pub fn ema(&self, period: usize) -> (r: Series<i64>)
        requires
            1 <= period <= self@.len(),
        ensures
            r@ == ema_spec(self@, period as int),
            r@.len() == self@.len(),
    {
        let n = self.len();
        let mut out: Vec<i64> = Vec::new();
        let mut e: i64 = *self.get(0);
        out.push(e);
        let mut i: usize = 1;
        while i < n
            invariant
                1 <= i <= n,
                n == self@.len(),
                1 <= period,
                out@.len() == i,
                e == ema_at(self@, period as int, i - 1),
                forall|t: int| 0 <= t < i ==> out@[t] == ema_at(self@, period as int, t),
            decreases n - i,
        {
            let x = *self.get(i);
            let d: i128 = x as i128 - e as i128;
            let q = tdiv_wide(2 * d, period as i128 + 1);
            e = sat_narrow(e as i128 + q);
            proof {
                assert(e == ema_step(ema_at(self@, period as int, i - 1), x, period as int));
            }
            out.push(e);
            i = i + 1;
        }
        assert(out@ =~= ema_spec(self@, period as int));
        Series::from_vec(out)
    }

    /// Wilder smoothed (running) average: placeholder during warm-up, a
    /// simple average of the first `period` samples at the seed position,
    /// then `(prev * (period - 1) + x) / period`.
    pub fn smma(&self, period: usize) -> (r: Series<i64>)
        requires
            1 <= period <= self@.len(),
            period <= 0x8000_0000,
        ensures
            r@ == smma_spec(self@, period as int),
            r@.len() == self@.len(),
    {
        let n = self.len();
        let mut out: Vec<i64> = Vec::new();
        let mut e: i64 = 0;
        let mut i: usize = 0;
        while i < n
            invariant
                i <= n,
                n == self@.len(),
                1 <= period <= n,
                period <= 0x8000_0000,
                out@.len() == i,
                i >= period ==> e == smma_at(self@, period as int, i - 1),
                forall|t: int| 0 <= t < i ==> out@[t] == smma_at(self@, period as int, t),
            decreases n - i,
        {
            if i + 1 < period {
                out.push(0i64);
            } else if i + 1 == period {
                let mut acc: i128 = 0;
                let mut m: usize = 0;
                while m < period
                    invariant
                        m <= period <= 0x8000_0000,
                        i + 1 == period,
                        i < n == self@.len(),
                        acc == win_sum(self@, i as int, m as int),
                    decreases period - m,
                {
                    proof {
                        lemma_win_sum_bound(self@, i as int, m as int);
                        lemma_win_sum_peel_oldest(self@, i as int, m + 1);
                    }
                    acc = acc + (*self.get(i - m)) as i128;
                    m = m + 1;
                }
                proof {
                    lemma_win_sum_bound(self@, i as int, period as int);
                }
                e = sat_narrow(tdiv_wide(acc, period as i128));
                out.push(e);
            } else {
                let x = *self.get(i);
                proof {
                    assert(-0x4000_0000_0000_0000_0000_0000_0000_0000 <= (e as int) * (period - 1)
                        <= 0x4000_0000_0000_0000_0000_0000_0000_0000) by (nonlinear_arith)
                        requires
                            i64::MIN <= e <= i64::MAX,
                            1 <= period <= 0x8000_0000,
                    ;
                }
                let num: i128 = e as i128 * (period as i128 - 1) + x as i128;
                e = sat_narrow(tdiv_wide(num, period as i128));
                proof {
                    assert(e == smma_step(
                        smma_at(self@, period as int, i - 1),
                        x,
                        period as int,
                    ));
                }
                out.push(e);
            }
            i = i + 1;
        }
        assert(out@ =~= smma_spec(self@, period as int));
        Series::from_vec(out)
    }

    /// Linearly weighted moving average: weights `1 ..= period` from oldest
    /// to newest, normalized by their total, placeholder until a full
    /// window exists.
    pub fn wma(&self, period: usize) -> (r: Series<i64>)
        requires
            1 <= period <= self@.len(),
            period <= 0x8000_0000,
        ensures
            r@ == wma_spec(self@, period as int),
            r@.len() == self@.len(),
    {
        let n = self.len();
        proof {
            assert((period as int) * (period as int + 1) < 0x1_0000_0000_0000_0000) by (
            nonlinear_arith)
                requires
                    1 <= period <= 0x8000_0000,
            ;
        }
        let tw_u: u128 = (period as u128) * (period as u128 + 1) / 2;
        let tw: i128 = tw_u as i128;
        proof {
            assert(tw == period * (period + 1) / 2 && 1 <= tw
                <= 0x8000_0000_0000_0000) by (nonlinear_arith)
                requires
                    1 <= period <= 0x8000_0000,
                    tw_u == (period as u128) * (period as u128 + 1) / 2,
                    tw == tw_u,
            ;
        }
        let mut out: Vec<i64> = Vec::new();
        let mut i: usize = 0;
        while i < n
            invariant
                i <= n,
                n == self@.len(),
                1 <= period <= n,
                period <= 0x8000_0000,
                tw == period * (period + 1) / 2,
                1 <= tw <= 0x8000_0000_0000_0000,
                out@.len() == i,
                forall|t: int| 0 <= t < i ==> out@[t] == wma_at(self@, period as int, t),
            decreases n - i,
        {
            if i + 1 < period {
                out.push(0i64);
            } else {
                let mut acc: i128 = 0;
                let mut m: usize = 0;
                while m < period
                    invariant
                        m <= period <= 0x8000_0000,
                        period <= i + 1,
                        i < n == self@.len(),
                        acc == wsum(self@, i as int, period as int) - wsum(
                            self@,
                            i - m,
                            (period - m) as int,
                        ),
                    decreases period - m,
                {
                    proof {
                        lemma_wsum_bound(self@, i as int, period as int);
                        lemma_wsum_bound(self@, i - m, (period - m) as int);
                        assert((period as int) * (period as int) <= 0x4000_0000_0000_0000
                            && (period - m) * (period - m) <= 0x4000_0000_0000_0000) by (
                        nonlinear_arith)
                            requires
                                0 <= m < period <= 0x8000_0000,
                        ;
                        assert(-(0x8000_0000int) * 0x8000_0000_0000_0000 <= (period - m) * (self@[i
                            - m] as int) <= 0x8000_0000 * 0x8000_0000_0000_0000) by (
                        nonlinear_arith)
                            requires
                                0 <= m < period <= 0x8000_0000,
                                i64::MIN <= self@[i - m] <= i64::MAX,
                        ;
                        assert(wsum(self@, i - m, (period - m) as int) == (period - m) * self@[i
                            - m] + wsum(self@, i - m - 1, (period - m - 1) as int));
                    }
                    acc = acc + (period - m) as i128 * (*self.get(i - m)) as i128;
                    m = m + 1;
                }
                proof {
                    lemma_wsum_bound(self@, i as int, period as int);
                    assert((period as int) * (period as int)
                        <= 0x4000_0000_0000_0000) by (nonlinear_arith)
                        requires
                            1 <= period <= 0x8000_0000,
                    ;
                }
                out.push(sat_narrow(tdiv_wide(acc, tw)));
            }
            i = i + 1;
        }
        assert(out@ =~= wma_spec(self@, period as int));
        Series::from_vec(out)
    }

    /// Hull moving average: `wma(2 * wma(period / 2) - wma(period))`
    /// re-smoothed at the rounded square root of the period, composed
    /// entirely from the weighted-average primitive.
    pub fn hma(&self, period: usize) -> (r: Series<i64>)
        requires
            2 <= period <= self@.len(),
            period <= 0x8000_0000,
        ensures
            r@ == hma_spec(self@, period as int),
            r@.len() == self@.len(),
    {
        let half = self.wma(period / 2);
        let full = self.wma(period);
        let raw = half.mul_val(2).sub(&full);
        assert(raw@ =~= hma_raw_spec(self@, period as int));
        let rs = isqrt_round(period);
        raw.wma(rs)
    }

    /// The uniform smoothing entry point: dispatches on the kind, so every
    /// caller can stay smoothing-agnostic.
    pub fn smooth(&self, kind: Smooth, period: usize) -> (r: Series<i64>)
        requires
            valid_period(kind, period as int, self@.len() as int),
        ensures
            r@ == smooth_spec(self@, kind, period as int),
            r@.len() == self@.len(),
    {
        match kind {
            Smooth::SMA => self.sma(period),
            Smooth::EMA => self.ema(period),
            Smooth::SMMA => self.smma(period),
            Smooth::WMA => self.wma(period),
            Smooth::HMA => self.hma(period),
        }
    }
}

} // verus!
