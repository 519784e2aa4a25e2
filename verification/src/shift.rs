//! Offset operations: referencing past bars without mutating indices.
//! `shift(k)` moves every value `k` positions forward and fills the vacated
//! warm-up region with the numeric neutral placeholder; `change(k)` is the
//! difference between a value and its `k`-bars-ago predecessor.

use vstd::prelude::*;
use crate::math::exec_sub_sat;
use crate::math::sub_sat;
use crate::series::Series;

verus! {

/// The value `k` bars back of position `i`, the neutral placeholder where
/// no such bar exists.
pub open spec fn sh(s: Seq<i64>, k: int, i: int) -> i64 {
    if i >= k {
        s[i - k]
    } else {
        0i64
    }
}

pub open spec fn shift_spec(s: Seq<i64>, k: int) -> Seq<i64> {
    Seq::new(s.len(), |i: int| sh(s, k, i))
}

pub open spec fn change_spec(s: Seq<i64>, k: int) -> Seq<i64> {
    Seq::new(s.len(), |i: int| if i >= k { sub_sat(s[i], s[i - k]) } else { 0i64 })
}

/// Composing two shifts is one shift by the summed offset: the law holds
/// because the placeholder is the same at every depth of the composition.
pub proof fn lemma_shift_compose(s: Seq<i64>, k1: int, k2: int)
    requires
        k1 >= 0,
        k2 >= 0,
    ensures
        shift_spec(shift_spec(s, k2), k1) == shift_spec(s, k1 + k2),
{
    assert(shift_spec(shift_spec(s, k2), k1) =~= shift_spec(s, k1 + k2));
}

/// A shift by zero is the identity.
pub proof fn lemma_shift_zero(s: Seq<i64>)
    ensures
        shift_spec(s, 0) == s,
{
    assert(shift_spec(s, 0) =~= s);
}

impl Series<i64> {
    /// `result[i] == self[i - k]` for `i >= k`, the neutral placeholder
    /// before that; `k == 0` is the identity.
    pub fn shift(&self, k: usize) -> (r: Series<i64>)
        ensures
            r@ == shift_spec(self@, k as int),
            r@.len() == self@.len(),
    {
        let n = self.len();
        let mut out: Vec<i64> = Vec::new();
        let mut j: usize = 0;
        while j < n
            invariant
                j <= n,
                n == self@.len(),
                out@.len() == j,
                forall|t: int| 0 <= t < j ==> out@[t] == (if t >= k { self@[t - k] } else { 0i64 }),
            decreases n - j,
        {
            if j >= k {
                out.push(*self.get(j - k));
            } else {
                out.push(0i64);
            }
            j = j + 1;
        }
        assert(out@ =~= shift_spec(self@, k as int));
        Series::from_vec(out)
    }

    /// `result[i] == self[i] - self[i - k]` for `i >= k`, the neutral
    /// placeholder before that.
    pub fn change(&self, k: usize) -> (r: Series<i64>)
        ensures
            r@ == change_spec(self@, k as int),
            r@.len() == self@.len(),
    {
        let n = self.len();
        let mut out: Vec<i64> = Vec::new();
        let mut j: usize = 0;
        while j < n
            invariant
                j <= n,
                n == self@.len(),
                out@.len() == j,
                forall|t: int|
                    0 <= t < j ==> out@[t] == (if t >= k {
                        sub_sat(self@[t], self@[t - k])
                    } else {
                        0i64
                    }),
            decreases n - j,
        {
            if j >= k {
                out.push(exec_sub_sat(*self.get(j), *self.get(j - k)));
            } else {
                out.push(0i64);
            }
            j = j + 1;
        }
        assert(out@ =~= change_spec(self@, k as int));
        Series::from_vec(out)
    }
}

} // verus!
