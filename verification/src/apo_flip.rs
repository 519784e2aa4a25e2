//! Signal on the absolute price oscillator flipping sign: long when it
//! crosses over the zero line, short when it crosses under.

use vstd::prelude::*;
use crate::cross::cross_over_val_spec;
use crate::cross::cross_under_val_spec;
use crate::series::Series;

verus! {

/// The zero line the oscillator flips around.
pub const APO_ZERO: i64 = 0;

pub struct APOFlipSignal {
    pub short_period: usize,
    pub long_period: usize,
}

impl APOFlipSignal {
    pub fn new(short_period: usize, long_period: usize) -> (r: APOFlipSignal)
        ensures
            r.short_period == short_period,
            r.long_period == long_period,
    {
        APOFlipSignal { short_period, long_period }
    }

    /// How many bars of history the signal needs: the longer of its two
    /// periods.
    pub fn lookback(&self) -> (n: usize)
        ensures
            n == (if self.short_period >= self.long_period {
                self.short_period
            } else {
                self.long_period
            }),
    {
        if self.short_period >= self.long_period {
            self.short_period
        } else {
            self.long_period
        }
    }

    /// The long and short triggers: the oscillator crossing the zero line
    /// in each direction.
    pub fn generate(&self, apo: &Series<i64>) -> (r: (Series<bool>, Series<bool>))
        ensures
            r.0@ == cross_over_val_spec(apo@, APO_ZERO),
            r.1@ == cross_under_val_spec(apo@, APO_ZERO),
    {
        (apo.cross_over_val(APO_ZERO), apo.cross_under_val(APO_ZERO))
    }
}

} // verus!
