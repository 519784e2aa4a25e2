//! The per-bar price batch and the derived price lines computed from it:
//! midpoint and typical prices, the true range, and its smoothed form.

use vstd::prelude::*;
use crate::math::abs_sat;
use crate::math::add_sat;
use crate::math::div_sat;
use crate::math::exec_abs_sat;
use crate::math::exec_sub_sat;
use crate::math::sub_sat;
use crate::series::Series;
use crate::smoothing::smooth_spec;
use crate::smoothing::valid_period;
use crate::smoothing::Smooth;

verus! {

/// One OHLCV batch: five aligned series of equal length, as every
/// collaborator that feeds the engine must supply them.
pub struct OHLCVSeries {
    pub open: Series<i64>,
    pub high: Series<i64>,
    pub low: Series<i64>,
    pub close: Series<i64>,
    pub volume: Series<i64>,
}

impl OHLCVSeries {
    /// All five series are index-aligned.
    pub open spec fn wf(&self) -> bool {
        self.open@.len() == self.close@.len() && self.high@.len() == self.close@.len()
            && self.low@.len() == self.close@.len() && self.volume@.len() == self.close@.len()
    }

    pub open spec fn len(&self) -> int {
        self.close@.len() as int
    }
}

pub open spec fn imax(a: i64, b: i64) -> i64 {
    if a > b {
        a
    } else {
        b
    }
}

/// True range at one position: the high-to-low span, widened by any gap
/// from the previous close; the bare span at the first bar.
pub open spec fn tr_at(high: Seq<i64>, low: Seq<i64>, close: Seq<i64>, i: int) -> i64 {
    if i == 0 {
        sub_sat(high[0], low[0])
    } else {
        imax(
            sub_sat(high[i], low[i]),
            imax(abs_sat(sub_sat(high[i], close[i - 1])), abs_sat(sub_sat(low[i], close[i - 1]))),
        )
    }
}

pub open spec fn tr_spec(high: Seq<i64>, low: Seq<i64>, close: Seq<i64>) -> Seq<i64> {
    Seq::new(high.len(), |i: int| tr_at(high, low, close, i))
}

/// The true-range series of aligned high, low and close series.
pub fn tr(high: &Series<i64>, low: &Series<i64>, close: &Series<i64>) -> (r: Series<i64>)
    requires
        high@.len() == low@.len(),
        high@.len() == close@.len(),
    ensures
        r@ == tr_spec(high@, low@, close@),
        r@.len() == high@.len(),
{
    let n = high.len();
    let mut out: Vec<i64> = Vec::new();
    let mut j: usize = 0;
    while j < n
        invariant
            j <= n,
            n == high@.len() == low@.len() && n == close@.len(),
            out@.len() == j,
            forall|t: int| 0 <= t < j ==> out@[t] == tr_at(high@, low@, close@, t),
        decreases n - j,
    {
        let hl = exec_sub_sat(*high.get(j), *low.get(j));
        if j == 0 {
            out.push(hl);
        } else {
            let prev_close = *close.get(j - 1);
            let hc = exec_abs_sat(exec_sub_sat(*high.get(j), prev_close));
            let lc = exec_abs_sat(exec_sub_sat(*low.get(j), prev_close));
            let m = if hc > lc {
                hc
            } else {
                lc
            };
            let t = if hl > m {
                hl
            } else {
                m
            };
            out.push(t);
        }
        j = j + 1;
    }
    assert(out@ =~= tr_spec(high@, low@, close@));
    Series::from_vec(out)
}

/// The true range smoothed by the chosen kind over the chosen period.
pub fn atr(
    high: &Series<i64>,
    low: &Series<i64>,
    close: &Series<i64>,
    smooth_type: Smooth,
    period: usize,
) -> (r: Series<i64>)
    requires
        high@.len() == low@.len(),
        high@.len() == close@.len(),
        valid_period(smooth_type, period as int, high@.len() as int),
    ensures
        r@ == smooth_spec(tr_spec(high@, low@, close@), smooth_type, period as int),
        r@.len() == high@.len(),
{
    tr(high, low, close).smooth(smooth_type, period)
}

/// The derived price lines every indicator draws from an OHLCV batch.
pub trait Price {
    spec fn opens(&self) -> Seq<i64>;

    spec fn highs(&self) -> Seq<i64>;

    spec fn lows(&self) -> Seq<i64>;

    spec fn closes(&self) -> Seq<i64>;

    /// The five series of the batch are index-aligned.
    spec fn aligned(&self) -> bool;

    /// Midpoint of high and low.
    fn hl2(&self) -> (r: Series<i64>)
        requires
            self.aligned(),
        ensures
            r@.len() == self.closes().len(),
            forall|i: int|
                0 <= i < r@.len() ==> r@[i] == div_sat(
                    add_sat(self.highs()[i], self.lows()[i]),
                    2,
                ),
    ;

    /// Typical price: the mean of high, low and close.
    fn hlc3(&self) -> (r: Series<i64>)
        requires
            self.aligned(),
        ensures
            r@.len() == self.closes().len(),
            forall|i: int|
                0 <= i < r@.len() ==> r@[i] == div_sat(
                    add_sat(add_sat(self.highs()[i], self.lows()[i]), self.closes()[i]),
                    3,
                ),
    ;

    /// Weighted close: high, low and the close counted twice.
    fn hlcc4(&self) -> (r: Series<i64>)
        requires
            self.aligned(),
        ensures
            r@.len() == self.closes().len(),
            forall|i: int|
                0 <= i < r@.len() ==> r@[i] == div_sat(
                    add_sat(
                        add_sat(add_sat(self.highs()[i], self.lows()[i]), self.closes()[i]),
                        self.closes()[i],
                    ),
                    4,
                ),
    ;

    /// Mean of all four price components.
    fn ohlc4(&self) -> (r: Series<i64>)
        requires
            self.aligned(),
        ensures
            r@.len() == self.closes().len(),
            forall|i: int|
                0 <= i < r@.len() ==> r@[i] == div_sat(
                    add_sat(
                        add_sat(add_sat(self.opens()[i], self.highs()[i]), self.lows()[i]),
                        self.closes()[i],
                    ),
                    4,
                ),
    ;

    /// The smoothed true range of the batch.
    fn atr(&self, period: usize, smooth_type: Smooth) -> (r: Series<i64>)
        requires
            self.aligned(),
            valid_period(smooth_type, period as int, self.closes().len() as int),
        ensures
            r@ == smooth_spec(
                tr_spec(self.highs(), self.lows(), self.closes()),
                smooth_type,
                period as int,
            ),
            r@.len() == self.closes().len(),
    ;

    /// The true range of the batch.
    fn tr(&self) -> (r: Series<i64>)
        requires
            self.aligned(),
        ensures
            r@ == tr_spec(self.highs(), self.lows(), self.closes()),
            r@.len() == self.closes().len(),
    ;
}

impl Price for OHLCVSeries {
    open spec fn opens(&self) -> Seq<i64> {
        self.open@
    }

    open spec fn highs(&self) -> Seq<i64> {
        self.high@
    }

    open spec fn lows(&self) -> Seq<i64> {
        self.low@
    }

    open spec fn closes(&self) -> Seq<i64> {
        self.close@
    }

    open spec fn aligned(&self) -> bool {
        self.wf()
    }

    fn hl2(&self) -> (r: Series<i64>) {
        self.high.add(&self.low).div_val(2)
    }

    fn hlc3(&self) -> (r: Series<i64>) {
        self.high.add(&self.low).add(&self.close).div_val(3)
    }

    fn hlcc4(&self) -> (r: Series<i64>) {
        self.high.add(&self.low).add(&self.close).add(&self.close).div_val(4)
    }

    fn ohlc4(&self) -> (r: Series<i64>) {
        self.open.add(&self.high).add(&self.low).add(&self.close).div_val(4)
    }

    fn atr(&self, period: usize, smooth_type: Smooth) -> (r: Series<i64>) {
        atr(&self.high, &self.low, &self.close, smooth_type, period)
    }

    fn tr(&self) -> (r: Series<i64>) {
        tr(&self.high, &self.low, &self.close)
    }
}

} // verus!
