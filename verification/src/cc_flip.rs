//! Signal on the coppock-style momentum curve flipping sign at the zero
//! line.

use vstd::prelude::*;
use crate::cross::cross_over_val_spec;
use crate::cross::cross_under_val_spec;
use crate::series::Series;
use crate::smoothing::Smooth;

verus! {

/// The zero line the curve flips around.
pub const CC_ZERO_LINE: i64 = 0;

pub struct CCFlipSignal {
    pub short_period: usize,
    pub long_period: usize,
    pub smooth_type: Smooth,
    pub smoothing_period: usize,
}

impl CCFlipSignal {
    pub fn new(
        short_period: usize,
        long_period: usize,
        smooth_type: Smooth,
        smoothing_period: usize,
    ) -> (r: CCFlipSignal)
        ensures
            r.short_period == short_period,
            r.long_period == long_period,
            r.smooth_type == smooth_type,
            r.smoothing_period == smoothing_period,
    {
        CCFlipSignal { short_period, long_period, smooth_type, smoothing_period }
    }

    /// The longest of the three periods the curve is built from.
    pub fn lookback(&self) -> (n: usize)
        ensures
            n >= self.short_period && n >= self.long_period && n >= self.smoothing_period,
            n == self.short_period || n == self.long_period || n == self.smoothing_period,
    {
        let adj_lookback = if self.short_period >= self.long_period {
            self.short_period
        } else {
            self.long_period
        };
        if adj_lookback >= self.smoothing_period {
            adj_lookback
        } else {
            self.smoothing_period
        }
    }

    /// The long and short triggers: the curve crossing the zero line in
    /// each direction.
    pub fn generate(&self, cc: &Series<i64>) -> (r: (Series<bool>, Series<bool>))
        ensures
            r.0@ == cross_over_val_spec(cc@, CC_ZERO_LINE),
            r.1@ == cross_under_val_spec(cc@, CC_ZERO_LINE),
    {
        (cc.cross_over_val(CC_ZERO_LINE), cc.cross_under_val(CC_ZERO_LINE))
    }
}

} // verus!
