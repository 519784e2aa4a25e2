//! Slingshot candlestick pattern: a breakout bar confirming a pullback
//! inside an established run, stated over strict comparisons so the warm-up
//! region can never fire it.

use vstd::prelude::*;
use crate::cmp::sgt_at;
use crate::cmp::slt_at;
use crate::series::Series;
use crate::shift::sh;

verus! {

pub open spec fn bullish_spec(o: Seq<i64>, h: Seq<i64>, l: Seq<i64>, c: Seq<i64>) -> Seq<bool> {
    Seq::new(
        c.len(),
        |i: int|
            sgt_at(sh(c, 1, i), sh(o, 1, i)) && sgt_at(sh(c, 1, i), sh(h, 2, i)) && sgt_at(
                sh(c, 1, i),
                sh(h, 3, i),
            ) && slt_at(sh(c, 2, i), sh(o, 2, i)) && sgt_at(sh(c, 3, i), sh(o, 3, i)) && sgt_at(
                sh(c, 4, i),
                sh(o, 4, i),
            ) && sgt_at(sh(c, 3, i), sh(c, 4, i)) && sgt_at(sh(l, 1, i), sh(c, 4, i)),
    )
}

pub open spec fn bearish_spec(o: Seq<i64>, h: Seq<i64>, l: Seq<i64>, c: Seq<i64>) -> Seq<bool> {
    Seq::new(
        c.len(),
        |i: int|
            slt_at(sh(c, 1, i), sh(o, 1, i)) && slt_at(sh(c, 1, i), sh(l, 2, i)) && slt_at(
                sh(c, 1, i),
                sh(l, 3, i),
            ) && sgt_at(sh(c, 2, i), sh(o, 2, i)) && slt_at(sh(c, 3, i), sh(o, 3, i)) && slt_at(
                sh(c, 4, i),
                sh(o, 4, i),
            ) && slt_at(sh(c, 3, i), sh(c, 4, i)) && slt_at(sh(h, 1, i), sh(c, 4, i)),
    )
}

/// Two up bars, a pullback bar, and a close back above the pulled-back
/// highs.
pub fn bullish(
    open: &Series<i64>,
    high: &Series<i64>,
    low: &Series<i64>,
    close: &Series<i64>,
) -> (r: Series<bool>)
    requires
        open@.len() == close@.len(),
        high@.len() == close@.len(),
        low@.len() == close@.len(),
    ensures
        r@ == bullish_spec(open@, high@, low@, close@),
        r@.len() == close@.len(),
{
    let m = close.shift(1).sgt(&open.shift(1)).and(&close.shift(1).sgt(&high.shift(2))).and(
        &close.shift(1).sgt(&high.shift(3)),
    ).and(&close.shift(2).slt(&open.shift(2))).and(&close.shift(3).sgt(&open.shift(3))).and(
        &close.shift(4).sgt(&open.shift(4)),
    ).and(&close.shift(3).sgt(&close.shift(4))).and(&low.shift(1).sgt(&close.shift(4)));
    assert(m@ =~= bullish_spec(open@, high@, low@, close@));
    m
}

/// The mirror of `bullish`.
pub fn bearish(
    open: &Series<i64>,
    high: &Series<i64>,
    low: &Series<i64>,
    close: &Series<i64>,
) -> (r: Series<bool>)
    requires
        open@.len() == close@.len(),
        high@.len() == close@.len(),
        low@.len() == close@.len(),
    ensures
        r@ == bearish_spec(open@, high@, low@, close@),
        r@.len() == close@.len(),
{
    let m = close.shift(1).slt(&open.shift(1)).and(&close.shift(1).slt(&low.shift(2))).and(
        &close.shift(1).slt(&low.shift(3)),
    ).and(&close.shift(2).sgt(&open.shift(2))).and(&close.shift(3).slt(&open.shift(3))).and(
        &close.shift(4).slt(&open.shift(4)),
    ).and(&close.shift(3).slt(&close.shift(4))).and(&high.shift(1).slt(&close.shift(4)));
    assert(m@ =~= bearish_spec(open@, high@, low@, close@));
    m
}

} // verus!
