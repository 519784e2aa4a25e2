//! The raw stochastic: where the close sits inside the trailing
//! high-to-low range, as a percentage.

use vstd::prelude::*;
use crate::extremum::highest_spec;
use crate::extremum::lowest_spec;
use crate::math::div_sat;
use crate::math::mul_sat;
use crate::math::sub_sat;
use crate::math::SCALE;
use crate::series::Series;

verus! {

pub open spec fn stoch_spec(high: Seq<i64>, low: Seq<i64>, close: Seq<i64>, period: int) -> Seq<
    i64,
> {
    Seq::new(
        close.len(),
        |i: int|
            div_sat(
                mul_sat(sub_sat(close[i], lowest_spec(low, period)[i]), SCALE),
                sub_sat(highest_spec(high, period)[i], lowest_spec(low, period)[i]),
            ),
    )
}

/// `100 * (close - lowest(low)) / (highest(high) - lowest(low))`, the
/// position of the close inside the trailing range. A flat range divides
/// by zero and follows the total-division policy; callers that need to
/// avoid that must guard before dividing.
pub fn stoch(high: &Series<i64>, low: &Series<i64>, close: &Series<i64>, period: usize) -> (r:
    Series<i64>)
    requires
        high@.len() == low@.len(),
        high@.len() == close@.len(),
        1 <= period <= high@.len(),
    ensures
        r@ == stoch_spec(high@, low@, close@, period as int),
        r@.len() == close@.len(),
{
    let hh = high.highest(period);
    let ll = low.lowest(period);
    let r = close.sub(&ll).mul_val(SCALE).div(&hh.sub(&ll));
    assert(r@ =~= stoch_spec(high@, low@, close@, period as int));
    r
}

} // verus!
