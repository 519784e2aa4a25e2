//! The baseline of the trailing range: the midpoint between the trailing
//! lowest low and highest high.

use vstd::prelude::*;
use crate::extremum::highest_spec;
use crate::extremum::lowest_spec;
use crate::math::add_sat;
use crate::math::div_sat;
use crate::series::Series;

verus! {

pub open spec fn kjs_spec(high: Seq<i64>, low: Seq<i64>, period: int) -> Seq<i64> {
    Seq::new(
        high.len(),
        |i: int| div_sat(add_sat(lowest_spec(low, period)[i], highest_spec(high, period)[i]), 2),
    )
}

/// `(lowest(low, period) + highest(high, period)) / 2`.
pub fn kjs(high: &Series<i64>, low: &Series<i64>, period: usize) -> (r: Series<i64>)
    requires
        high@.len() == low@.len(),
        1 <= period <= high@.len(),
    ensures
        r@ == kjs_spec(high@, low@, period as int),
        r@.len() == high@.len(),
{
    let r = low.lowest(period).add(&high.highest(period)).div_val(2);
    assert(r@ =~= kjs_spec(high@, low@, period as int));
    r
}

} // verus!
