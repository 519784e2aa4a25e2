//! Rolling-window reducers: the trailing maximum and minimum over a window
//! of `period` positions, and elementwise clamps against a scalar. The
//! window is trailing only (no look-ahead) and is clipped at the start of
//! the series, so the first positions reduce over the prefix available so
//! far and a window of one is the input itself.

use vstd::prelude::*;
use crate::series::Series;

verus! {

/// First position of the trailing window of `period` values ending at `i`.
pub open spec fn win_lo(i: int, period: int) -> int {
    if i + 1 >= period {
        i + 1 - period
    } else {
        0
    }
}

/// Maximum of `s[lo ..= hi]`.
pub open spec fn seq_max(s: Seq<i64>, lo: int, hi: int) -> i64
    recommends
        0 <= lo <= hi < s.len(),
    decreases hi - lo,
{
    if hi <= lo {
        s[lo]
    } else {
        let m = seq_max(s, lo, hi - 1);
        if s[hi] > m {
            s[hi]
        } else {
            m
        }
    }
}

/// Minimum of `s[lo ..= hi]`.
pub open spec fn seq_min(s: Seq<i64>, lo: int, hi: int) -> i64
    recommends
        0 <= lo <= hi < s.len(),
    decreases hi - lo,
{
    if hi <= lo {
        s[lo]
    } else {
        let m = seq_min(s, lo, hi - 1);
        if s[hi] < m {
            s[hi]
        } else {
            m
        }
    }
}

pub open spec fn highest_spec(s: Seq<i64>, period: int) -> Seq<i64> {
    Seq::new(s.len(), |i: int| seq_max(s, win_lo(i, period), i))
}

pub open spec fn lowest_spec(s: Seq<i64>, period: int) -> Seq<i64> {
    Seq::new(s.len(), |i: int| seq_min(s, win_lo(i, period), i))
}

/// Some position of `s[lo ..= hi]` holds the value `v`.
pub open spec fn attained_at(s: Seq<i64>, v: i64, lo: int, hi: int) -> bool {
    exists|j: int| #![trigger s[j]] lo <= j <= hi && s[j] == v
}

/// `r[i]` dominates every element of the trailing window ending at `i`.
pub open spec fn max_dominates(s: Seq<i64>, r: Seq<i64>, period: int) -> bool {
    forall|i: int, j: int|
        #![trigger r[i], s[j]]
        0 <= i < s.len() && win_lo(i, period) <= j <= i ==> s[j] <= r[i]
}

/// `r[i]` equals some element of the trailing window ending at `i`.
pub open spec fn max_attained(s: Seq<i64>, r: Seq<i64>, period: int) -> bool {
    forall|i: int|
        #![trigger r[i]]
        0 <= i < s.len() ==> attained_at(s, r[i], win_lo(i, period), i)
}

/// `r[i]` is below every element of the trailing window ending at `i`.
pub open spec fn min_dominates(s: Seq<i64>, r: Seq<i64>, period: int) -> bool {
    forall|i: int, j: int|
        #![trigger r[i], s[j]]
        0 <= i < s.len() && win_lo(i, period) <= j <= i ==> s[j] >= r[i]
}

/// `r[i]` equals some element of the trailing window ending at `i`.
pub open spec fn min_attained(s: Seq<i64>, r: Seq<i64>, period: int) -> bool {
    forall|i: int|
        #![trigger r[i]]
        0 <= i < s.len() ==> attained_at(s, r[i], win_lo(i, period), i)
}

/// The window maximum dominates every window element and is attained at one
/// of them.
pub proof fn lemma_seq_max_is_bound(s: Seq<i64>, lo: int, hi: int)
    requires
        0 <= lo <= hi < s.len(),
    ensures
        forall|j: int| lo <= j <= hi ==> s[j] <= seq_max(s, lo, hi),
        attained_at(s, seq_max(s, lo, hi), lo, hi),
    decreases hi - lo,
{
    if hi > lo {
        lemma_seq_max_is_bound(s, lo, hi - 1);
        let w = choose|j: int| #![trigger s[j]] lo <= j <= hi - 1 && s[j] == seq_max(s, lo, hi - 1);
        if s[hi] > seq_max(s, lo, hi - 1) {
            assert(lo <= hi <= hi && s[hi] == seq_max(s, lo, hi));
        } else {
            assert(lo <= w <= hi && s[w] == seq_max(s, lo, hi));
        }
    } else {
        assert(lo <= lo <= hi && s[lo] == seq_max(s, lo, hi));
    }
}

/// The window minimum is below every window element and is attained at one
/// of them.
pub proof fn lemma_seq_min_is_bound(s: Seq<i64>, lo: int, hi: int)
    requires
        0 <= lo <= hi < s.len(),
    ensures
        forall|j: int| lo <= j <= hi ==> s[j] >= seq_min(s, lo, hi),
        attained_at(s, seq_min(s, lo, hi), lo, hi),
    decreases hi - lo,
{
    if hi > lo {
        lemma_seq_min_is_bound(s, lo, hi - 1);
        let w = choose|j: int| #![trigger s[j]] lo <= j <= hi - 1 && s[j] == seq_min(s, lo, hi - 1);
        if s[hi] < seq_min(s, lo, hi - 1) {
            assert(lo <= hi <= hi && s[hi] == seq_min(s, lo, hi));
        } else {
            assert(lo <= w <= hi && s[w] == seq_min(s, lo, hi));
        }
    } else {
        assert(lo <= lo <= hi && s[lo] == seq_min(s, lo, hi));
    }
}

/// The trailing maximum is an upper bound of each trailing window and is
/// attained inside it.
pub proof fn lemma_highest_props(s: Seq<i64>, period: int)
    requires
        period >= 1,
    ensures
        max_dominates(s, highest_spec(s, period), period),
        max_attained(s, highest_spec(s, period), period),
{
    let r = highest_spec(s, period);
    assert forall|i: int, j: int|
        #![trigger r[i], s[j]]
        0 <= i < s.len() && win_lo(i, period) <= j <= i implies s[j] <= r[i] by {
        lemma_seq_max_is_bound(s, win_lo(i, period), i);
    }
    assert forall|i: int| #![trigger r[i]] 0 <= i < s.len() implies attained_at(
        s,
        r[i],
        win_lo(i, period),
        i,
    ) by {
        lemma_seq_max_is_bound(s, win_lo(i, period), i);
        assert(r[i] == seq_max(s, win_lo(i, period), i));
    }
}

/// The trailing minimum is a lower bound of each trailing window and is
/// attained inside it.
pub proof fn lemma_lowest_props(s: Seq<i64>, period: int)
    requires
        period >= 1,
    ensures
        min_dominates(s, lowest_spec(s, period), period),
        min_attained(s, lowest_spec(s, period), period),
{
    let r = lowest_spec(s, period);
    assert forall|i: int, j: int|
        #![trigger r[i], s[j]]
        0 <= i < s.len() && win_lo(i, period) <= j <= i implies s[j] >= r[i] by {
        lemma_seq_min_is_bound(s, win_lo(i, period), i);
    }
    assert forall|i: int| #![trigger r[i]] 0 <= i < s.len() implies attained_at(
        s,
        r[i],
        win_lo(i, period),
        i,
    ) by {
        lemma_seq_min_is_bound(s, win_lo(i, period), i);
        assert(r[i] == seq_min(s, win_lo(i, period), i));
    }
}

impl Series<i64> {
    /// Trailing maximum: `result[i]` is the largest input over
    /// `[i - period + 1, i]`, clipped at the front of the series. It
    /// dominates every value of that window and equals one of them.
    pub fn highest(&self, period: usize) -> (r: Series<i64>)
        requires
            1 <= period <= self@.len(),
        ensures
            r@ == highest_spec(self@, period as int),
            r@.len() == self@.len(),
            max_dominates(self@, r@, period as int),
            max_attained(self@, r@, period as int),
    {
        let n = self.len();
        let mut out: Vec<i64> = Vec::new();
        let mut j: usize = 0;
        while j < n
            invariant
                j <= n,
                n == self@.len(),
                1 <= period,
                out@.len() == j,
                forall|t: int| 0 <= t < j ==> out@[t] == seq_max(self@, win_lo(t, period as int), t),
            decreases n - j,
        {
            let lo: usize = if j + 1 >= period {
                j + 1 - period
            } else {
                0
            };
            let mut m: i64 = *self.get(lo);
            let mut t: usize = lo;
            while t < j
                invariant
                    lo <= t <= j < n == self@.len(),
                    m == seq_max(self@, lo as int, t as int),
                decreases j - t,
            {
                t = t + 1;
                let x = *self.get(t);
                if x > m {
                    m = x;
                }
            }
            out.push(m);
            j = j + 1;
        }
        assert(out@ =~= highest_spec(self@, period as int));
        proof {
            lemma_highest_props(self@, period as int);
        }
        Series::from_vec(out)
    }

    /// Trailing minimum: the mirror of `highest`.
    pub fn lowest(&self, period: usize) -> (r: Series<i64>)
        requires
            1 <= period <= self@.len(),
        ensures
            r@ == lowest_spec(self@, period as int),
            r@.len() == self@.len(),
            min_dominates(self@, r@, period as int),
            min_attained(self@, r@, period as int),
    {
        let n = self.len();
        let mut out: Vec<i64> = Vec::new();
        let mut j: usize = 0;
        while j < n
            invariant
                j <= n,
                n == self@.len(),
                1 <= period,
                out@.len() == j,
                forall|t: int| 0 <= t < j ==> out@[t] == seq_min(self@, win_lo(t, period as int), t),
            decreases n - j,
        {
            let lo: usize = if j + 1 >= period {
                j + 1 - period
            } else {
                0
            };
            let mut m: i64 = *self.get(lo);
            let mut t: usize = lo;
            while t < j
                invariant
                    lo <= t <= j < n == self@.len(),
                    m == seq_min(self@, lo as int, t as int),
                decreases j - t,
            {
                t = t + 1;
                let x = *self.get(t);
                if x < m {
                    m = x;
                }
            }
            out.push(m);
            j = j + 1;
        }
        assert(out@ =~= lowest_spec(self@, period as int));
        proof {
            lemma_lowest_props(self@, period as int);
        }
        Series::from_vec(out)
    }

    /// Elementwise clamp from below against a scalar.
    pub fn max_val(&self, rhs: i64) -> (r: Series<i64>)
        ensures
            r@.len() == self@.len(),
            forall|i: int|
                0 <= i < self@.len() ==> r@[i] == (if self@[i] > rhs {
                    self@[i]
                } else {
                    rhs
                }),
    {
        let n = self.len();
        let mut out: Vec<i64> = Vec::new();
        let mut j: usize = 0;
        while j < n
            invariant
                j <= n,
                n == self@.len(),
                out@.len() == j,
                forall|k: int|
                    0 <= k < j ==> out@[k] == (if self@[k] > rhs {
                        self@[k]
                    } else {
                        rhs
                    }),
            decreases n - j,
        {
            let x = *self.get(j);
            if x > rhs {
                out.push(x);
            } else {
                out.push(rhs);
            }
            j = j + 1;
        }
        Series::from_vec(out)
    }

    /// Elementwise clamp from above against a scalar.
    pub fn min_val(&self, rhs: i64) -> (r: Series<i64>)
        ensures
            r@.len() == self@.len(),
            forall|i: int|
                0 <= i < self@.len() ==> r@[i] == (if self@[i] < rhs {
                    self@[i]
                } else {
                    rhs
                }),
    {
        let n = self.len();
        let mut out: Vec<i64> = Vec::new();
        let mut j: usize = 0;
        while j < n
            invariant
                j <= n,
                n == self@.len(),
                out@.len() == j,
                forall|k: int|
                    0 <= k < j ==> out@[k] == (if self@[k] < rhs {
                        self@[k]
                    } else {
                        rhs
                    }),
            decreases n - j,
        {
            let x = *self.get(j);
            if x < rhs {
                out.push(x);
            } else {
                out.push(rhs);
            }
            j = j + 1;
        }
        Series::from_vec(out)
    }
}

} // verus!
