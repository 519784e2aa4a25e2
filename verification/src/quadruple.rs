//! Signal on four consecutive bars straddling a moving average: long when
//! four lows sit below it while four closes hold above it, short on the
//! mirror with the highs.

use vstd::prelude::*;
use crate::price::OHLCVSeries;
use crate::series::Series;
use crate::shift::sh;
use crate::smoothing::smooth_spec;
use crate::smoothing::valid_period;
use crate::smoothing::Smooth;

verus! {

pub open spec fn quadruple_long_spec(l: Seq<i64>, c: Seq<i64>, m: Seq<i64>) -> Seq<bool> {
    Seq::new(
        c.len(),
        |i: int|
            l[i] < m[i] && c[i] > m[i] && sh(l, 1, i) < sh(m, 1, i) && sh(c, 1, i) > sh(m, 1, i)
                && sh(l, 2, i) < sh(m, 2, i) && sh(c, 2, i) > sh(m, 2, i) && sh(l, 3, i) < sh(
                m,
                3,
                i,
            ) && sh(c, 3, i) > sh(m, 3, i),
    )
}

pub open spec fn quadruple_short_spec(h: Seq<i64>, c: Seq<i64>, m: Seq<i64>) -> Seq<bool> {
    Seq::new(
        c.len(),
        |i: int|
            h[i] > m[i] && c[i] < m[i] && sh(h, 1, i) > sh(m, 1, i) && sh(c, 1, i) < sh(m, 1, i)
                && sh(h, 2, i) > sh(m, 2, i) && sh(c, 2, i) < sh(m, 2, i) && sh(h, 3, i) > sh(
                m,
                3,
                i,
            ) && sh(c, 3, i) < sh(m, 3, i),
    )
}

pub struct QuadrupleSignal {
    pub smoothing: Smooth,
    pub period: usize,
}

impl QuadrupleSignal {
    pub fn new(smoothing: Smooth, period: usize) -> (r: QuadrupleSignal)
        ensures
            r.smoothing == smoothing,
            r.period == period,
    {
        QuadrupleSignal { smoothing, period }
    }

    pub fn lookback(&self) -> (n: usize)
        ensures
            n == self.period,
    {
        self.period
    }

    /// The long and short triggers over the moving average of the closes.
    pub fn generate(&self, data: &OHLCVSeries) -> (r: (Series<bool>, Series<bool>))
        requires
            data.wf(),
            valid_period(self.smoothing, self.period as int, data.len()),
        ensures
            r.0@ == quadruple_long_spec(
                data.low@,
                data.close@,
                smooth_spec(data.close@, self.smoothing, self.period as int),
            ),
            r.1@ == quadruple_short_spec(
                data.high@,
                data.close@,
                smooth_spec(data.close@, self.smoothing, self.period as int),
            ),
    {
        let ma = data.close.smooth(self.smoothing, self.period);

        let long_signal = data.low.lt(&ma).and(&data.close.gt(&ma)).and(
            &data.low.shift(1).lt(&ma.shift(1)),
        ).and(&data.close.shift(1).gt(&ma.shift(1))).and(&data.low.shift(2).lt(&ma.shift(2))).and(
            &data.close.shift(2).gt(&ma.shift(2)),
        ).and(&data.low.shift(3).lt(&ma.shift(3))).and(&data.close.shift(3).gt(&ma.shift(3)));

        let short_signal = data.high.gt(&ma).and(&data.close.lt(&ma)).and(
            &data.high.shift(1).gt(&ma.shift(1)),
        ).and(&data.close.shift(1).lt(&ma.shift(1))).and(&data.high.shift(2).gt(&ma.shift(2))).and(
            &data.close.shift(2).lt(&ma.shift(2)),
        ).and(&data.high.shift(3).gt(&ma.shift(3))).and(&data.close.shift(3).lt(&ma.shift(3)));

        assert(long_signal@ =~= quadruple_long_spec(
            data.low@,
            data.close@,
            smooth_spec(data.close@, self.smoothing, self.period as int),
        ));
        assert(short_signal@ =~= quadruple_short_spec(
            data.high@,
            data.close@,
            smooth_spec(data.close@, self.smoothing, self.period as int),
        ));
        (long_signal, short_signal)
    }
}

} // verus!
