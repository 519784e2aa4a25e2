//! Signal on the MACD line flipping sign: long when the line crosses over
//! the zero line, short when it crosses under.

use vstd::prelude::*;
use crate::cross::cross_over_val_spec;
use crate::cross::cross_under_val_spec;
use crate::macd::macd;
use crate::macd::macd_line_spec;
use crate::price::OHLCVSeries;
use crate::series::Series;
use crate::smoothing::valid_period;
use crate::smoothing::Smooth;

verus! {

/// The zero line the MACD line flips around.
pub const MACD_ZERO_LINE: i64 = 0;

pub struct MACDFlipSignal {
    pub smooth_type: Smooth,
    pub fast_period: usize,
    pub slow_period: usize,
    pub signal_period: usize,
}

impl MACDFlipSignal {
    pub fn new(
        smooth_type: Smooth,
        fast_period: usize,
        slow_period: usize,
        signal_period: usize,
    ) -> (r: MACDFlipSignal)
        ensures
            r.smooth_type == smooth_type,
            r.fast_period == fast_period,
            r.slow_period == slow_period,
            r.signal_period == signal_period,
    {
        MACDFlipSignal { smooth_type, fast_period, slow_period, signal_period }
    }

    /// The longest of the three periods the line is built from.
    pub fn lookback(&self) -> (n: usize)
        ensures
            n >= self.fast_period && n >= self.slow_period && n >= self.signal_period,
            n == self.fast_period || n == self.slow_period || n == self.signal_period,
    {
        let adj_lookback = if self.fast_period >= self.slow_period {
            self.fast_period
        } else {
            self.slow_period
        };
        if adj_lookback >= self.signal_period {
            adj_lookback
        } else {
            self.signal_period
        }
    }

    /// The long and short triggers: the MACD line of the closes crossing
    /// the zero line in each direction.
    pub fn generate(&self, data: &OHLCVSeries) -> (r: (Series<bool>, Series<bool>))
        requires
            data.wf(),
            valid_period(self.smooth_type, self.fast_period as int, data.len()),
            valid_period(self.smooth_type, self.slow_period as int, data.len()),
            valid_period(self.smooth_type, self.signal_period as int, data.len()),
        ensures
            r.0@ == cross_over_val_spec(
                macd_line_spec(
                    data.close@,
                    self.smooth_type,
                    self.fast_period as int,
                    self.slow_period as int,
                ),
                MACD_ZERO_LINE,
            ),
            r.1@ == cross_under_val_spec(
                macd_line_spec(
                    data.close@,
                    self.smooth_type,
                    self.fast_period as int,
                    self.slow_period as int,
                ),
                MACD_ZERO_LINE,
            ),
    {
        let lines = macd(
            &data.close,
            self.smooth_type,
            self.fast_period,
            self.slow_period,
            self.signal_period,
        );
        let macd_line = lines.0;
        (macd_line.cross_over_val(MACD_ZERO_LINE), macd_line.cross_under_val(MACD_ZERO_LINE))
    }
}

} // verus!
