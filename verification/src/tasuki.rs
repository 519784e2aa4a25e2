//! Tasuki-gap candlestick pattern: a pullback bar that fails to close the
//! gap opened two bars earlier.

use vstd::prelude::*;
use crate::series::Series;
use crate::shift::sh;

verus! {

pub open spec fn bullish_spec(o: Seq<i64>, c: Seq<i64>) -> Seq<bool> {
    Seq::new(
        c.len(),
        |i: int|
            c[i] < o[i] && sh(c, 1, i) > sh(o, 1, i) && sh(c, 2, i) > sh(o, 2, i) && c[i] < sh(
                o,
                1,
                i,
            ) && c[i] > sh(c, 2, i) && sh(o, 1, i) > sh(c, 2, i),
    )
}

pub open spec fn bearish_spec(o: Seq<i64>, c: Seq<i64>) -> Seq<bool> {
    Seq::new(
        c.len(),
        |i: int|
            c[i] > o[i] && sh(c, 1, i) < sh(o, 1, i) && sh(c, 2, i) < sh(o, 2, i) && c[i] > sh(
                o,
                1,
                i,
            ) && c[i] < sh(c, 2, i) && sh(o, 1, i) < sh(c, 2, i),
    )
}

/// A down bar inside an upward gap that stays above the pre-gap close.
pub fn bullish(open: &Series<i64>, close: &Series<i64>) -> (r: Vec<bool>)
    requires
        open@.len() == close@.len(),
    ensures
        r@ == bullish_spec(open@, close@),
        r@.len() == close@.len(),
{
    let m = close.lt(open).and(&close.shift(1).gt(&open.shift(1))).and(
        &close.shift(2).gt(&open.shift(2)),
    ).and(&close.lt(&open.shift(1))).and(&close.gt(&close.shift(2))).and(
        &open.shift(1).gt(&close.shift(2)),
    );
    assert(m@ =~= bullish_spec(open@, close@));
    m.to_vec()
}

/// The mirror of `bullish`: an up bar inside a downward gap that stays
/// below the pre-gap close.
pub fn bearish(open: &Series<i64>, close: &Series<i64>) -> (r: Vec<bool>)
    requires
        open@.len() == close@.len(),
    ensures
        r@ == bearish_spec(open@, close@),
        r@.len() == close@.len(),
{
    let m = close.gt(open).and(&close.shift(1).lt(&open.shift(1))).and(
        &close.shift(2).lt(&open.shift(2)),
    ).and(&close.gt(&open.shift(1))).and(&close.lt(&close.shift(2))).and(
        &open.shift(1).lt(&close.shift(2)),
    );
    assert(m@ =~= bearish_spec(open@, close@));
    m.to_vec()
}

} // verus!
