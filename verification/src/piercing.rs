//! Piercing-line candlestick pattern: a close that reverses past the
//! midpoint of the previous bar's body.

use vstd::prelude::*;
use crate::math::add_sat;
use crate::math::div_sat;
use crate::series::Series;
use crate::shift::sh;

verus! {

pub open spec fn bullish_spec(o: Seq<i64>, c: Seq<i64>) -> Seq<bool> {
    Seq::new(
        c.len(),
        |i: int|
            c[i] > o[i] && sh(c, 1, i) < sh(o, 1, i) && o[i] < sh(c, 1, i) && c[i] < sh(o, 1, i)
                && c[i] >= div_sat(add_sat(sh(c, 1, i), sh(o, 1, i)), 2),
    )
}

pub open spec fn bearish_spec(o: Seq<i64>, c: Seq<i64>) -> Seq<bool> {
    Seq::new(
        c.len(),
        |i: int|
            c[i] < o[i] && sh(c, 1, i) > sh(o, 1, i) && o[i] > sh(c, 1, i) && c[i] > sh(o, 1, i)
                && c[i] <= div_sat(add_sat(sh(c, 1, i), sh(o, 1, i)), 2),
    )
}

/// An up bar opening below the previous down bar's close and closing at or
/// above the midpoint of its body.
pub fn bullish(open: &Series<i64>, close: &Series<i64>) -> (r: Vec<bool>)
    requires
        open@.len() == close@.len(),
    ensures
        r@ == bullish_spec(open@, close@),
        r@.len() == close@.len(),
{
    let m = close.gt(open).and(&close.shift(1).lt(&open.shift(1))).and(
        &open.lt(&close.shift(1)),
    ).and(&close.lt(&open.shift(1))).and(
        &close.gte(&close.shift(1).add(&open.shift(1)).div_val(2)),
    );
    assert(m@ =~= bullish_spec(open@, close@));
    m.to_vec()
}

/// The mirror of `bullish`: a down bar reversing past the midpoint of the
/// previous up bar's body.
pub fn bearish(open: &Series<i64>, close: &Series<i64>) -> (r: Vec<bool>)
    requires
        open@.len() == close@.len(),
    ensures
        r@ == bearish_spec(open@, close@),
        r@.len() == close@.len(),
{
    let m = close.lt(open).and(&close.shift(1).gt(&open.shift(1))).and(
        &open.gt(&close.shift(1)),
    ).and(&close.gt(&open.shift(1))).and(
        &close.lte(&close.shift(1).add(&open.shift(1)).div_val(2)),
    );
    assert(m@ =~= bearish_spec(open@, close@));
    m.to_vec()
}

} // verus!
