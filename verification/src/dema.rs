//! Double exponential moving average: twice the exponential average minus
//! the exponential average of the exponential average, reducing lag.

use vstd::prelude::*;
use crate::math::mul_sat;
use crate::math::sub_sat;
use crate::series::Series;
use crate::smoothing::ema_spec;

verus! {

pub open spec fn dema_spec(s: Seq<i64>, period: int) -> Seq<i64> {
    let e1 = ema_spec(s, period);
    let e2 = ema_spec(e1, period);
    Seq::new(s.len(), |i: int| sub_sat(mul_sat(e1[i], 2), e2[i]))
}

/// `2 * ema(source) - ema(ema(source))`.
pub fn dema(source: &Series<i64>, period: usize) -> (r: Series<i64>)
    requires
        1 <= period <= source@.len(),
    ensures
        r@ == dema_spec(source@, period as int),
        r@.len() == source@.len(),
{
    let e1 = source.ema(period);
    let r = e1.mul_val(2).sub(&e1.ema(period));
    assert(r@ =~= dema_spec(source@, period as int));
    r
}

} // verus!
