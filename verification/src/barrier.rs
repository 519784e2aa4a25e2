//! Barrier candlestick pattern: a reversal bar against a flat extreme held
//! over three bars.

use vstd::prelude::*;
use crate::series::Series;
use crate::shift::sh;

verus! {

pub open spec fn bullish_spec(o: Seq<i64>, l: Seq<i64>, c: Seq<i64>) -> Seq<bool> {
    Seq::new(
        c.len(),
        |i: int|
            sh(c, 1, i) > sh(o, 1, i) && sh(c, 2, i) < sh(o, 2, i) && sh(c, 3, i) < sh(o, 3, i)
                && sh(l, 1, i) == sh(l, 2, i) && sh(l, 2, i) == sh(l, 3, i),
    )
}

pub open spec fn bearish_spec(o: Seq<i64>, h: Seq<i64>, c: Seq<i64>) -> Seq<bool> {
    Seq::new(
        c.len(),
        |i: int|
            sh(c, 1, i) < sh(o, 1, i) && sh(c, 2, i) > sh(o, 2, i) && sh(c, 3, i) > sh(o, 3, i)
                && sh(h, 1, i) == sh(h, 2, i) && sh(h, 2, i) == sh(h, 3, i),
    )
}

/// Two down bars on one unbroken low, then an up bar off it.
pub fn bullish(open: &Series<i64>, low: &Series<i64>, close: &Series<i64>) -> (r: Series<bool>)
    requires
        open@.len() == close@.len(),
        low@.len() == close@.len(),
    ensures
        r@ == bullish_spec(open@, low@, close@),
        r@.len() == close@.len(),
{
    let m = close.shift(1).gt(&open.shift(1)).and(&close.shift(2).lt(&open.shift(2))).and(
        &close.shift(3).lt(&open.shift(3)),
    ).and(&low.shift(1).eq(&low.shift(2))).and(&low.shift(2).eq(&low.shift(3)));
    assert(m@ =~= bullish_spec(open@, low@, close@));
    m
}

/// The mirror of `bullish`: two up bars on one unbroken high, then a down
/// bar off it.
pub fn bearish(open: &Series<i64>, high: &Series<i64>, close: &Series<i64>) -> (r: Series<bool>)
    requires
        open@.len() == close@.len(),
        high@.len() == close@.len(),
    ensures
        r@ == bearish_spec(open@, high@, close@),
        r@.len() == close@.len(),
{
    let m = close.shift(1).lt(&open.shift(1)).and(&close.shift(2).gt(&open.shift(2))).and(
        &close.shift(3).gt(&open.shift(3)),
    ).and(&high.shift(1).eq(&high.shift(2))).and(&high.shift(2).eq(&high.shift(3)));
    assert(m@ =~= bearish_spec(open@, high@, close@));
    m
}

} // verus!
