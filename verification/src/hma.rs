//! Hull moving average as a free indicator function over a source series.

use vstd::prelude::*;
use crate::series::Series;
use crate::smoothing::hma_spec;

verus! {

/// The Hull average of the source at the given period.
pub fn hma(source: &Series<i64>, period: usize) -> (r: Series<i64>)
    requires
        2 <= period <= source@.len(),
        period <= 0x8000_0000,
    ensures
        r@ == hma_spec(source@, period as int),
        r@.len() == source@.len(),
{
    source.hma(period)
}

} // verus!
