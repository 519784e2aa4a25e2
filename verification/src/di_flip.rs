//! Signal on the directional index flipping sign at the zero line.

use vstd::prelude::*;
use crate::cross::cross_over_val_spec;
use crate::cross::cross_under_val_spec;
use crate::series::Series;
use crate::smoothing::Smooth;

verus! {

/// The zero line the index flips around.
pub const DI_ZERO_LINE: i64 = 0;

pub struct DIFlipSignal {
    pub smooth_type: Smooth,
    pub period: usize,
}

impl DIFlipSignal {
    pub fn new(smooth_type: Smooth, period: usize) -> (r: DIFlipSignal)
        ensures
            r.smooth_type == smooth_type,
            r.period == period,
    {
        DIFlipSignal { smooth_type, period }
    }

    pub fn lookback(&self) -> (n: usize)
        ensures
            n == self.period,
    {
        self.period
    }

    /// The long and short triggers: the index crossing the zero line in
    /// each direction.
    pub fn generate(&self, di: &Series<i64>) -> (r: (Series<bool>, Series<bool>))
        ensures
            r.0@ == cross_over_val_spec(di@, DI_ZERO_LINE),
            r.1@ == cross_under_val_spec(di@, DI_ZERO_LINE),
    {
        (di.cross_over_val(DI_ZERO_LINE), di.cross_under_val(DI_ZERO_LINE))
    }
}

} // verus!
