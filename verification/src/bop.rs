//! Regime filter over the balance-of-power oscillator: the market is
//! bullish where the oscillator sits strictly above zero, bearish where it
//! sits strictly below.

use vstd::prelude::*;
use crate::series::Series;

verus! {

/// The zero line the regime is read against.
pub const BOP_FILTER: i64 = 0;

pub struct BOPFilter {
    pub smoothing_period: usize,
}

impl BOPFilter {
    pub fn new(smoothing_period: usize) -> (r: BOPFilter)
        ensures
            r.smoothing_period == smoothing_period,
    {
        BOPFilter { smoothing_period }
    }

    /// How many bars of history the filter needs.
    pub fn lookback(&self) -> (n: usize)
        ensures
            n == self.smoothing_period,
    {
        self.smoothing_period
    }

    /// Split the smoothed balance-of-power oscillator into the bullish and
    /// bearish regime masks, strictly, so the warm-up region decides
    /// neither way.
    pub fn apply(&self, bop: &Series<i64>) -> (r: (Series<bool>, Series<bool>))
        ensures
            r.0@.len() == bop@.len() && r.1@.len() == bop@.len(),
            forall|i: int| 0 <= i < bop@.len() ==> r.0@[i] == (bop@[i] != 0 && bop@[i] > BOP_FILTER),
            forall|i: int| 0 <= i < bop@.len() ==> r.1@[i] == (bop@[i] != 0 && bop@[i] < BOP_FILTER),
    {
        (bop.sgt_val(BOP_FILTER), bop.slt_val(BOP_FILTER))
    }
}

} // verus!
