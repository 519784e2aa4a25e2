//! Triple exponential moving average: three nested exponential averages
//! combined to cancel lag.

use vstd::prelude::*;
use crate::math::add_sat;
use crate::math::mul_sat;
use crate::math::sub_sat;
use crate::series::Series;
use crate::smoothing::ema_spec;

verus! {

pub open spec fn tema_spec(s: Seq<i64>, period: int) -> Seq<i64> {
    let e1 = ema_spec(s, period);
    let e2 = ema_spec(e1, period);
    let e3 = ema_spec(e2, period);
    Seq::new(s.len(), |i: int| add_sat(mul_sat(sub_sat(e1[i], e2[i]), 3), e3[i]))
}

/// `3 * (ema1 - ema2) + ema3` over the nested exponential averages.
pub fn tema(source: &Series<i64>, period: usize) -> (r: Series<i64>)
    requires
        1 <= period <= source@.len(),
    ensures
        r@ == tema_spec(source@, period as int),
        r@.len() == source@.len(),
{
    let ema1 = source.ema(period);
    let ema2 = ema1.ema(period);
    let ema3 = ema2.ema(period);
    let r = ema1.sub(&ema2).mul_val(3).add(&ema3);
    assert(r@ =~= tema_spec(source@, period as int));
    r
}

} // verus!
