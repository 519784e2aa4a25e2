//! Moving-average convergence/divergence: the spread between a fast and a
//! slow smoothing of the source, its own smoothing as the signal line, and
//! the spread between the two as the histogram.

use vstd::prelude::*;
use crate::ops::sub_spec;
use crate::series::Series;
use crate::smoothing::smooth_spec;
use crate::smoothing::valid_period;
use crate::smoothing::Smooth;

verus! {

pub open spec fn macd_line_spec(s: Seq<i64>, kind: Smooth, fast: int, slow: int) -> Seq<i64> {
    sub_spec(smooth_spec(s, kind, fast), smooth_spec(s, kind, slow))
}

/// The MACD composition: `line = smooth(fast) - smooth(slow)`,
/// `signal = smooth(line, signal_period)`, `histogram = line - signal`.
pub fn macd(
    source: &Series<i64>,
    smooth_type: Smooth,
    fast_period: usize,
    slow_period: usize,
    signal_period: usize,
) -> (r: (Series<i64>, Series<i64>, Series<i64>))
    requires
        valid_period(smooth_type, fast_period as int, source@.len() as int),
        valid_period(smooth_type, slow_period as int, source@.len() as int),
        valid_period(smooth_type, signal_period as int, source@.len() as int),
    ensures
        r.0@ == macd_line_spec(source@, smooth_type, fast_period as int, slow_period as int),
        r.1@ == smooth_spec(r.0@, smooth_type, signal_period as int),
        r.2@ == sub_spec(r.0@, r.1@),
        r.0@.len() == source@.len() && r.1@.len() == source@.len() && r.2@.len() == source@.len(),
{
    let macd_line = source.smooth(smooth_type, fast_period).sub(
        &source.smooth(smooth_type, slow_period),
    );
    let signal_line = macd_line.smooth(smooth_type, signal_period);
    let histogram = macd_line.sub(&signal_line);
    (macd_line, signal_line, histogram)
}

} // verus!
