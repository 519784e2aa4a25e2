//! Relative strength index: smoothed upward movement against smoothed
//! downward movement, mapped onto the percentage scale.

use vstd::prelude::*;
use crate::math::add_sat;
use crate::math::div_sat;
use crate::math::neg_sat;
use crate::math::sub_sat;
use crate::math::SCALE;
use crate::select::select;
use crate::series::Series;
use crate::shift::change_spec;
use crate::smoothing::smooth_spec;
use crate::smoothing::valid_period;
use crate::smoothing::Smooth;

verus! {

/// The one-bar gains of `s`, zero where it fell.
pub open spec fn up_moves_spec(s: Seq<i64>) -> Seq<i64> {
    Seq::new(
        s.len(),
        |j: int|
            if change_spec(s, 1)[j] > 0 {
                change_spec(s, 1)[j]
            } else {
                0i64
            },
    )
}

/// The one-bar losses of `s` as positive magnitudes, zero where it rose.
pub open spec fn down_moves_spec(s: Seq<i64>) -> Seq<i64> {
    Seq::new(
        s.len(),
        |j: int|
            neg_sat(
                if change_spec(s, 1)[j] < 0 {
                    change_spec(s, 1)[j]
                } else {
                    0i64
                },
            ),
    )
}

pub open spec fn rsi_spec(s: Seq<i64>, kind: Smooth, period: int) -> Seq<i64> {
    let up = smooth_spec(up_moves_spec(s), kind, period);
    let down = smooth_spec(down_moves_spec(s), kind, period);
    Seq::new(
        s.len(),
        |i: int|
            if down[i] == 0 {
                SCALE
            } else {
                sub_sat(SCALE, div_sat(SCALE, add_sat(div_sat(up[i], down[i]), 1)))
            },
    )
}

/// `100 - 100 / (1 + up / down)` over the smoothed one-bar gains and
/// losses, and the full scale wherever the smoothed loss is still zero.
pub fn rsi(source: &Series<i64>, smooth_type: Smooth, period: usize) -> (r: Series<i64>)
    requires
        valid_period(smooth_type, period as int, source@.len() as int),
    ensures
        r@ == rsi_spec(source@, smooth_type, period as int),
        r@.len() == source@.len(),
{
    let len = source.len();
    let mom = source.change(1);
    let up_raw = mom.max_val(0);
    assert(up_raw@ =~= up_moves_spec(source@));
    let up = up_raw.smooth(smooth_type, period);
    let down_raw = mom.min_val(0).negate();
    assert(down_raw@ =~= down_moves_spec(source@));
    let down = down_raw.smooth(smooth_type, period);

    let oneh = Series::fill(SCALE, len);
    let ratio = up.div(&down).add_val(1).rdiv_val(SCALE).rsub_val(SCALE);
    let r = select(&down.eq_val(0), &oneh, &ratio);
    assert(r@ =~= rsi_spec(source@, smooth_type, period as int));
    r
}

} // verus!
