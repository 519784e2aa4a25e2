//! Detrended price oscillator: the source minus its smoothing shifted by
//! half a period plus one, exposing the cycle around the trend.

use vstd::prelude::*;
use crate::ops::sub_spec;
use crate::series::Series;
use crate::shift::shift_spec;
use crate::smoothing::smooth_spec;
use crate::smoothing::valid_period;
use crate::smoothing::Smooth;

verus! {

pub open spec fn dpo_spec(s: Seq<i64>, kind: Smooth, period: int) -> Seq<i64> {
    sub_spec(s, shift_spec(smooth_spec(s, kind, period), period / 2 + 1))
}

/// `source - shift(smooth(source, period), period / 2 + 1)`.
pub fn dpo(source: &Series<i64>, smooth_type: Smooth, period: usize) -> (r: Series<i64>)
    requires
        valid_period(smooth_type, period as int, source@.len() as int),
    ensures
        r@ == dpo_spec(source@, smooth_type, period as int),
        r@.len() == source@.len(),
{
    let k = period / 2 + 1;
    source.sub(&source.smooth(smooth_type, period).shift(k))
}

} // verus!
