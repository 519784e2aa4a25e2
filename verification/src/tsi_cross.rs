//! Signal on the true strength index crossing its own signal line: the
//! index smoothed once more over the signal period.

use vstd::prelude::*;
use crate::cross::cross_over_spec;
use crate::cross::cross_under_spec;
use crate::series::Series;
use crate::smoothing::smooth_spec;
use crate::smoothing::valid_period;
use crate::smoothing::Smooth;

verus! {

pub struct TSICrossSignal {
    pub smooth_type: Smooth,
    pub fast_period: usize,
    pub slow_period: usize,
    pub signal_period: usize,
}

impl TSICrossSignal {
    pub fn new(
        smooth_type: Smooth,
        fast_period: usize,
        slow_period: usize,
        signal_period: usize,
    ) -> (r: TSICrossSignal)
        ensures
            r.smooth_type == smooth_type,
            r.fast_period == fast_period,
            r.slow_period == slow_period,
            r.signal_period == signal_period,
    {
        TSICrossSignal { smooth_type, fast_period, slow_period, signal_period }
    }

    /// The longest of the three periods the index is built from.
    pub fn lookback(&self) -> (n: usize)
        ensures
            n >= self.fast_period && n >= self.slow_period && n >= self.signal_period,
            n == self.fast_period || n == self.slow_period || n == self.signal_period,
    {
        let adj_lookback = if self.fast_period >= self.slow_period {
            self.fast_period
        } else {
            self.slow_period
        };
        if adj_lookback >= self.signal_period {
            adj_lookback
        } else {
            self.signal_period
        }
    }

    /// The long and short triggers: the index crossing its freshly smoothed
    /// signal line in each direction.
    pub fn generate(&self, tsi: &Series<i64>) -> (r: (Series<bool>, Series<bool>))
        requires
            valid_period(self.smooth_type, self.signal_period as int, tsi@.len() as int),
        ensures
            r.0@ == cross_over_spec(
                tsi@,
                smooth_spec(tsi@, self.smooth_type, self.signal_period as int),
            ),
            r.1@ == cross_under_spec(
                tsi@,
                smooth_spec(tsi@, self.smooth_type, self.signal_period as int),
            ),
    {
        let signal_line = tsi.smooth(self.smooth_type, self.signal_period);
        (tsi.cross_over(&signal_line), tsi.cross_under(&signal_line))
    }
}

} // verus!
