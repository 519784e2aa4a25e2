//! Three-one-two candlestick pattern: an outside bar, an inside bar, and a
//! breakout of the inside bar's extreme.

use vstd::prelude::*;
use crate::series::Series;
use crate::shift::sh;

verus! {

pub open spec fn setup_spec(o: Seq<i64>, h: Seq<i64>, l: Seq<i64>, c: Seq<i64>, i: int) -> bool {
    sh(h, 2, i) > sh(h, 3, i) && sh(l, 2, i) < sh(l, 3, i) && sh(c, 2, i) < sh(o, 2, i) && sh(
        h,
        1,
        i,
    ) < sh(h, 2, i) && sh(l, 1, i) > sh(l, 2, i)
}

pub open spec fn bullish_spec(o: Seq<i64>, h: Seq<i64>, l: Seq<i64>, c: Seq<i64>) -> Seq<bool> {
    Seq::new(c.len(), |i: int| setup_spec(o, h, l, c, i) && h[i] > sh(h, 1, i))
}

pub open spec fn bearish_spec(o: Seq<i64>, h: Seq<i64>, l: Seq<i64>, c: Seq<i64>) -> Seq<bool> {
    Seq::new(c.len(), |i: int| setup_spec(o, h, l, c, i) && l[i] < sh(l, 1, i))
}

/// The setup followed by a break above the inside bar's high.
pub fn bullish(
    open: &Series<i64>,
    high: &Series<i64>,
    low: &Series<i64>,
    close: &Series<i64>,
) -> (r: Series<bool>)
    requires
        open@.len() == close@.len(),
        high@.len() == close@.len(),
        low@.len() == close@.len(),
    ensures
        r@ == bullish_spec(open@, high@, low@, close@),
        r@.len() == close@.len(),
{
    let m = high.shift(2).gt(&high.shift(3)).and(&low.shift(2).lt(&low.shift(3))).and(
        &close.shift(2).lt(&open.shift(2)),
    ).and(&high.shift(1).lt(&high.shift(2))).and(&low.shift(1).gt(&low.shift(2))).and(
        &high.gt(&high.shift(1)),
    );
    assert(m@ =~= bullish_spec(open@, high@, low@, close@));
    m
}

/// The setup followed by a break below the inside bar's low.
pub fn bearish(
    open: &Series<i64>,
    high: &Series<i64>,
    low: &Series<i64>,
    close: &Series<i64>,
) -> (r: Series<bool>)
    requires
        open@.len() == close@.len(),
        high@.len() == close@.len(),
        low@.len() == close@.len(),
    ensures
        r@ == bearish_spec(open@, high@, low@, close@),
        r@.len() == close@.len(),
{
    let m = high.shift(2).gt(&high.shift(3)).and(&low.shift(2).lt(&low.shift(3))).and(
        &close.shift(2).lt(&open.shift(2)),
    ).and(&high.shift(1).lt(&high.shift(2))).and(&low.shift(1).gt(&low.shift(2))).and(
        &low.lt(&low.shift(1)),
    );
    assert(m@ =~= bearish_spec(open@, high@, low@, close@));
    m
}

} // verus!
