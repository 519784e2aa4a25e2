//! Edge-triggered cross-event detection between two series, or between a
//! series and a broadcast threshold. A cross fires only on the transition
//! step, never on sustained state, and position zero has no predecessor so
//! it never fires.

use vstd::prelude::*;
use crate::series::Series;

verus! {

/// `a` crosses over `b` at `i`: above now, not above one bar earlier.
pub open spec fn cross_over_spec(a: Seq<i64>, b: Seq<i64>) -> Seq<bool> {
    Seq::new(a.len(), |i: int| i > 0 && a[i] > b[i] && a[i - 1] <= b[i - 1])
}

/// `a` crosses under `b` at `i`: below now, not below one bar earlier.
pub open spec fn cross_under_spec(a: Seq<i64>, b: Seq<i64>) -> Seq<bool> {
    Seq::new(a.len(), |i: int| i > 0 && a[i] < b[i] && a[i - 1] >= b[i - 1])
}

/// Cross-over and cross-under are mutually exclusive at every position, and
/// both are `false` at position zero.
pub proof fn lemma_cross_exclusive(a: Seq<i64>, b: Seq<i64>, i: int)
    requires
        a.len() == b.len(),
        0 <= i < a.len(),
    ensures
        !(cross_over_spec(a, b)[i] && cross_under_spec(a, b)[i]),
        i == 0 ==> !cross_over_spec(a, b)[i] && !cross_under_spec(a, b)[i],
{
}

/// `a` crosses over the constant `v` at `i`.
pub open spec fn cross_over_val_spec(a: Seq<i64>, v: i64) -> Seq<bool> {
    Seq::new(a.len(), |i: int| i > 0 && a[i] > v && a[i - 1] <= v)
}

/// `a` crosses under the constant `v` at `i`.
pub open spec fn cross_under_val_spec(a: Seq<i64>, v: i64) -> Seq<bool> {
    Seq::new(a.len(), |i: int| i > 0 && a[i] < v && a[i - 1] >= v)
}

impl Series<i64> {
    /// `result[i]` is `true` iff `self` moves from not-above to above `rhs`
    /// between positions `i - 1` and `i`; position zero never fires.
    pub fn cross_over(&self, rhs: &Series<i64>) -> (r: Series<bool>)
        requires
            self@.len() == rhs@.len(),
        ensures
            r@ == cross_over_spec(self@, rhs@),
            r@.len() == self@.len(),
    {
        let n = self.len();
        let mut out: Vec<bool> = Vec::new();
        let mut j: usize = 0;
        while j < n
            invariant
                j <= n,
                n == self@.len() == rhs@.len(),
                out@.len() == j,
                forall|k: int|
                    0 <= k < j ==> out@[k] == (k > 0 && self@[k] > rhs@[k] && self@[k - 1] <= rhs@[k
                        - 1]),
            decreases n - j,
        {
            if j == 0 {
                out.push(false);
            } else {
                out.push(*self.get(j) > *rhs.get(j) && *self.get(j - 1) <= *rhs.get(j - 1));
            }
            j = j + 1;
        }
        assert(out@ =~= cross_over_spec(self@, rhs@));
        Series::from_vec(out)
    }

    /// The mirror of `cross_over`: from not-below to below.
    pub fn cross_under(&self, rhs: &Series<i64>) -> (r: Series<bool>)
        requires
            self@.len() == rhs@.len(),
        ensures
            r@ == cross_under_spec(self@, rhs@),
            r@.len() == self@.len(),
    {
        let n = self.len();
        let mut out: Vec<bool> = Vec::new();
        let mut j: usize = 0;
        while j < n
            invariant
                j <= n,
                n == self@.len() == rhs@.len(),
                out@.len() == j,
                forall|k: int|
                    0 <= k < j ==> out@[k] == (k > 0 && self@[k] < rhs@[k] && self@[k - 1] >= rhs@[k
                        - 1]),
            decreases n - j,
        {
            if j == 0 {
                out.push(false);
            } else {
                out.push(*self.get(j) < *rhs.get(j) && *self.get(j - 1) >= *rhs.get(j - 1));
            }
            j = j + 1;
        }
        assert(out@ =~= cross_under_spec(self@, rhs@));
        Series::from_vec(out)
    }

    /// Cross over a broadcast threshold: the degenerate case of a series
    /// crossing a constant line.
    pub fn cross_over_val(&self, rhs: i64) -> (r: Series<bool>)
        ensures
            r@ == cross_over_val_spec(self@, rhs),
            r@.len() == self@.len(),
    {
        let n = self.len();
        let mut out: Vec<bool> = Vec::new();
        let mut j: usize = 0;
        while j < n
            invariant
                j <= n,
                n == self@.len(),
                out@.len() == j,
                forall|k: int|
                    0 <= k < j ==> out@[k] == (k > 0 && self@[k] > rhs && self@[k - 1] <= rhs),
            decreases n - j,
        {
            if j == 0 {
                out.push(false);
            } else {
                out.push(*self.get(j) > rhs && *self.get(j - 1) <= rhs);
            }
            j = j + 1;
        }
        assert(out@ =~= cross_over_val_spec(self@, rhs));
        Series::from_vec(out)
    }

    /// Cross under a broadcast threshold.
    pub fn cross_under_val(&self, rhs: i64) -> (r: Series<bool>)
        ensures
            r@ == cross_under_val_spec(self@, rhs),
            r@.len() == self@.len(),
    {
        let n = self.len();
        let mut out: Vec<bool> = Vec::new();
        let mut j: usize = 0;
        while j < n
            invariant
                j <= n,
                n == self@.len(),
                out@.len() == j,
                forall|k: int|
                    0 <= k < j ==> out@[k] == (k > 0 && self@[k] < rhs && self@[k - 1] >= rhs),
            decreases n - j,
        {
            if j == 0 {
                out.push(false);
            } else {
                out.push(*self.get(j) < rhs && *self.get(j - 1) >= rhs);
            }
            j = j + 1;
        }
        assert(out@ =~= cross_under_val_spec(self@, rhs));
        Series::from_vec(out)
    }
}

} // verus!
