//! Conditional selection: an elementwise ternary that stitches two
//! alternative computations into one total function, driven by a boolean
//! mask of the same length.

use vstd::prelude::*;
use crate::series::Series;

verus! {

pub open spec fn select_spec(mask: Seq<bool>, a: Seq<i64>, b: Seq<i64>) -> Seq<i64> {
    Seq::new(mask.len(), |i: int| if mask[i] { a[i] } else { b[i] })
}

/// `result[i]` is `if_true[i]` where the mask holds, `if_false[i]` elsewhere.
pub fn select(mask: &Series<bool>, if_true: &Series<i64>, if_false: &Series<i64>) -> (r: Series<
    i64,
>)
    requires
        mask@.len() == if_true@.len(),
        mask@.len() == if_false@.len(),
    ensures
        r@ == select_spec(mask@, if_true@, if_false@),
        r@.len() == mask@.len(),
{
    let n = mask.len();
    let mut out: Vec<i64> = Vec::new();
    let mut j: usize = 0;
    while j < n
        invariant
            j <= n,
            n == mask@.len() == if_true@.len() && n == if_false@.len(),
            out@.len() == j,
            forall|k: int|
                0 <= k < j ==> out@[k] == (if mask@[k] {
                    if_true@[k]
                } else {
                    if_false@[k]
                }),
        decreases n - j,
    {
        if *mask.get(j) {
            out.push(*if_true.get(j));
        } else {
            out.push(*if_false.get(j));
        }
        j = j + 1;
    }
    assert(out@ =~= select_spec(mask@, if_true@, if_false@));
    Series::from_vec(out)
}

} // verus!
