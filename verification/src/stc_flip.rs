//! Signal on the Schaff-style trend cycle leaving its extreme bands: long
//! when the cycle crosses over the lower band, short when it crosses under
//! the upper band.

use vstd::prelude::*;
use crate::cross::cross_over_val_spec;
use crate::cross::cross_under_val_spec;
use crate::series::Series;
use crate::smoothing::Smooth;

verus! {

/// The oversold band on the percentage scale.
pub const STC_LOWER_LINE: i64 = 25;

/// The overbought band on the percentage scale.
pub const STC_UPPER_LINE: i64 = 75;

pub struct STCFlipSignal {
    pub smooth_type: Smooth,
    pub fast_period: usize,
    pub slow_period: usize,
    pub cycle: usize,
    pub d_first: usize,
    pub d_second: usize,
}

impl STCFlipSignal {
    pub fn new(
        smooth_type: Smooth,
        fast_period: usize,
        slow_period: usize,
        cycle: usize,
        d_first: usize,
        d_second: usize,
    ) -> (r: STCFlipSignal)
        ensures
            r.smooth_type == smooth_type,
            r.fast_period == fast_period,
            r.slow_period == slow_period,
            r.cycle == cycle,
            r.d_first == d_first,
            r.d_second == d_second,
    {
        STCFlipSignal { smooth_type, fast_period, slow_period, cycle, d_first, d_second }
    }

    /// The longest of the five periods the cycle is built from.
    pub fn lookback(&self) -> (n: usize)
        ensures
            n >= self.fast_period && n >= self.slow_period && n >= self.cycle && n >= self.d_first
                && n >= self.d_second,
            n == self.fast_period || n == self.slow_period || n == self.cycle || n == self.d_first
                || n == self.d_second,
    {
        let one = if self.fast_period >= self.slow_period {
            self.fast_period
        } else {
            self.slow_period
        };
        let two = if one >= self.cycle {
            one
        } else {
            self.cycle
        };
        let three = if two >= self.d_first {
            two
        } else {
            self.d_first
        };
        if three >= self.d_second {
            three
        } else {
            self.d_second
        }
    }

    /// The long and short triggers: the cycle leaving the oversold band
    /// upward, or the overbought band downward.
    pub fn generate(&self, stc: &Series<i64>) -> (r: (Series<bool>, Series<bool>))
        ensures
            r.0@ == cross_over_val_spec(stc@, STC_LOWER_LINE),
            r.1@ == cross_under_val_spec(stc@, STC_UPPER_LINE),
    {
        (stc.cross_over_val(STC_LOWER_LINE), stc.cross_under_val(STC_UPPER_LINE))
    }
}

} // verus!
