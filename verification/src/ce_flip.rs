//! Signal on the chandelier-exit direction series flipping: long on a flip
//! from the short state to the long state, short on the reverse, read
//! strictly so the warm-up region never counts as a state.

use vstd::prelude::*;
use crate::series::Series;
use crate::shift::sh;

verus! {

/// The direction value of the long state.
pub const CE_LONG_STATE: i64 = 1;

/// The direction value of the short state.
pub const CE_SHORT_STATE: i64 = -1;

pub struct CEFlipSignal {
    pub period: usize,
    pub atr_period: usize,
    pub factor: i64,
}

impl CEFlipSignal {
    pub fn new(period: usize, atr_period: usize, factor: i64) -> (r: CEFlipSignal)
        ensures
            r.period == period,
            r.atr_period == atr_period,
            r.factor == factor,
    {
        CEFlipSignal { period, atr_period, factor }
    }

    /// The longer of the range period and the true-range period.
    pub fn lookback(&self) -> (n: usize)
        ensures
            n == (if self.period >= self.atr_period {
                self.period
            } else {
                self.atr_period
            }),
    {
        if self.period >= self.atr_period {
            self.period
        } else {
            self.atr_period
        }
    }

    /// The long and short triggers: the direction state on this bar against
    /// the opposite state one bar earlier.
    pub fn generate(&self, direction: &Series<i64>) -> (r: (Series<bool>, Series<bool>))
        ensures
            r.0@.len() == direction@.len() && r.1@.len() == direction@.len(),
            forall|i: int|
                0 <= i < direction@.len() ==> r.0@[i] == (direction@[i] == CE_LONG_STATE && sh(
                    direction@,
                    1,
                    i,
                ) == CE_SHORT_STATE),
            forall|i: int|
                0 <= i < direction@.len() ==> r.1@[i] == (direction@[i] == CE_SHORT_STATE && sh(
                    direction@,
                    1,
                    i,
                ) == CE_LONG_STATE),
    {
        let prev_direction = direction.shift(1);
        (
            direction.seq_val(CE_LONG_STATE).and(&prev_direction.seq_val(CE_SHORT_STATE)),
            direction.seq_val(CE_SHORT_STATE).and(&prev_direction.seq_val(CE_LONG_STATE)),
        )
    }
}

} // verus!
