//! Stochastic oscillator: the raw stochastic smoothed into the %K line,
//! and %K smoothed again into the %D line.

use vstd::prelude::*;
use crate::series::Series;
use crate::smoothing::smooth_spec;
use crate::smoothing::valid_period;
use crate::smoothing::Smooth;
use crate::stoch::stoch;
use crate::stoch::stoch_spec;

verus! {

/// `%K = smooth(stoch, k_period)`, `%D = smooth(%K, d_period)`.
pub fn stochosc(
    source: &Series<i64>,
    high: &Series<i64>,
    low: &Series<i64>,
    smooth_type: Smooth,
    period: usize,
    k_period: usize,
    d_period: usize,
) -> (r: (Series<i64>, Series<i64>))
    requires
        high@.len() == low@.len(),
        high@.len() == source@.len(),
        1 <= period <= high@.len(),
        valid_period(smooth_type, k_period as int, source@.len() as int),
        valid_period(smooth_type, d_period as int, source@.len() as int),
    ensures
        r.0@ == smooth_spec(
            stoch_spec(high@, low@, source@, period as int),
            smooth_type,
            k_period as int,
        ),
        r.1@ == smooth_spec(r.0@, smooth_type, d_period as int),
        r.0@.len() == source@.len() && r.1@.len() == source@.len(),
{
    let st = stoch(high, low, source, period);
    let k = st.smooth(smooth_type, k_period);
    let d = k.smooth(smooth_type, d_period);
    (k, d)
}

} // verus!
