//! Relational operators between two equal-length series, or a series and a
//! broadcast scalar, producing boolean series. The strict variants also
//! demand that the operands are outside the warm-up placeholder state: a
//! strict comparison is `false` wherever a series operand still holds the
//! numeric neutral value, even if the raw comparison would be true. The
//! placeholder is the literal neutral value, so a genuinely computed zero is
//! indistinguishable from warm-up, by design.

use vstd::prelude::*;
use crate::series::Series;

verus! {

/// Strict greater-than of two aligned positions.
pub open spec fn sgt_at(x: i64, y: i64) -> bool {
    x != 0 && y != 0 && x > y
}

/// Strict less-than of two aligned positions.
pub open spec fn slt_at(x: i64, y: i64) -> bool {
    x != 0 && y != 0 && x < y
}

/// Strict equality of two aligned positions.
pub open spec fn seq_at(x: i64, y: i64) -> bool {
    x != 0 && y != 0 && x == y
}

/// A strict comparison never holds while either operand is in its warm-up
/// placeholder state.
pub proof fn lemma_strict_needs_warm_operands(x: i64, y: i64)
    ensures
        x == 0 || y == 0 ==> !sgt_at(x, y) && !slt_at(x, y) && !seq_at(x, y),
{
}

impl Series<i64> {
    /// Elementwise `>` of two equal-length series.
    pub fn gt(&self, rhs: &Series<i64>) -> (r: Series<bool>)
        requires
            self@.len() == rhs@.len(),
        ensures
            r@.len() == self@.len(),
            forall|i: int| 0 <= i < self@.len() ==> r@[i] == (self@[i] > rhs@[i]),
    {
        let n = self.len();
        let mut out: Vec<bool> = Vec::new();
        let mut j: usize = 0;
        while j < n
            invariant
                j <= n,
                n == self@.len() == rhs@.len(),
                out@.len() == j,
                forall|k: int| 0 <= k < j ==> out@[k] == (self@[k] > rhs@[k]),
            decreases n - j,
        {
            out.push(*self.get(j) > *rhs.get(j));
            j = j + 1;
        }
        Series::from_vec(out)
    }

    /// Elementwise `>=` of two equal-length series.
    pub fn gte(&self, rhs: &Series<i64>) -> (r: Series<bool>)
        requires
            self@.len() == rhs@.len(),
        ensures
            r@.len() == self@.len(),
            forall|i: int| 0 <= i < self@.len() ==> r@[i] == (self@[i] >= rhs@[i]),
    {
        let n = self.len();
        let mut out: Vec<bool> = Vec::new();
        let mut j: usize = 0;
        while j < n
            invariant
                j <= n,
                n == self@.len() == rhs@.len(),
                out@.len() == j,
                forall|k: int| 0 <= k < j ==> out@[k] == (self@[k] >= rhs@[k]),
            decreases n - j,
        {
            out.push(*self.get(j) >= *rhs.get(j));
            j = j + 1;
        }
        Series::from_vec(out)
    }

    /// Elementwise `<` of two equal-length series.
    pub fn lt(&self, rhs: &Series<i64>) -> (r: Series<bool>)
        requires
            self@.len() == rhs@.len(),
        ensures
            r@.len() == self@.len(),
            forall|i: int| 0 <= i < self@.len() ==> r@[i] == (self@[i] < rhs@[i]),
    {
        let n = self.len();
        let mut out: Vec<bool> = Vec::new();
        let mut j: usize = 0;
        while j < n
            invariant
                j <= n,
                n == self@.len() == rhs@.len(),
                out@.len() == j,
                forall|k: int| 0 <= k < j ==> out@[k] == (self@[k] < rhs@[k]),
            decreases n - j,
        {
            out.push(*self.get(j) < *rhs.get(j));
            j = j + 1;
        }
        Series::from_vec(out)
    }

    /// Elementwise `<=` of two equal-length series.
    pub fn lte(&self, rhs: &Series<i64>) -> (r: Series<bool>)
        requires
            self@.len() == rhs@.len(),
        ensures
            r@.len() == self@.len(),
            forall|i: int| 0 <= i < self@.len() ==> r@[i] == (self@[i] <= rhs@[i]),
    {
        let n = self.len();
        let mut out: Vec<bool> = Vec::new();
        let mut j: usize = 0;
        while j < n
            invariant
                j <= n,
                n == self@.len() == rhs@.len(),
                out@.len() == j,
                forall|k: int| 0 <= k < j ==> out@[k] == (self@[k] <= rhs@[k]),
            decreases n - j,
        {
            out.push(*self.get(j) <= *rhs.get(j));
            j = j + 1;
        }
        Series::from_vec(out)
    }

    /// Elementwise equality of two equal-length series.
    pub fn eq(&self, rhs: &Series<i64>) -> (r: Series<bool>)
        requires
            self@.len() == rhs@.len(),
        ensures
            r@.len() == self@.len(),
            forall|i: int| 0 <= i < self@.len() ==> r@[i] == (self@[i] == rhs@[i]),
    {
        let n = self.len();
        let mut out: Vec<bool> = Vec::new();
        let mut j: usize = 0;
        while j < n
            invariant
                j <= n,
                n == self@.len() == rhs@.len(),
                out@.len() == j,
                forall|k: int| 0 <= k < j ==> out@[k] == (self@[k] == rhs@[k]),
            decreases n - j,
        {
            out.push(*self.get(j) == *rhs.get(j));
            j = j + 1;
        }
        Series::from_vec(out)
    }

    /// Elementwise `>` against a broadcast scalar.
    pub fn gt_val(&self, rhs: i64) -> (r: Series<bool>)
        ensures
            r@.len() == self@.len(),
            forall|i: int| 0 <= i < self@.len() ==> r@[i] == (self@[i] > rhs),
    {
        let n = self.len();
        let mut out: Vec<bool> = Vec::new();
        let mut j: usize = 0;
        while j < n
            invariant
                j <= n,
                n == self@.len(),
                out@.len() == j,
                forall|k: int| 0 <= k < j ==> out@[k] == (self@[k] > rhs),
            decreases n - j,
        {
            out.push(*self.get(j) > rhs);
            j = j + 1;
        }
        Series::from_vec(out)
    }

    /// Elementwise `>=` against a broadcast scalar.
    pub fn gte_val(&self, rhs: i64) -> (r: Series<bool>)
        ensures
            r@.len() == self@.len(),
            forall|i: int| 0 <= i < self@.len() ==> r@[i] == (self@[i] >= rhs),
    {
        let n = self.len();
        let mut out: Vec<bool> = Vec::new();
        let mut j: usize = 0;
        while j < n
            invariant
                j <= n,
                n == self@.len(),
                out@.len() == j,
                forall|k: int| 0 <= k < j ==> out@[k] == (self@[k] >= rhs),
            decreases n - j,
        {
            out.push(*self.get(j) >= rhs);
            j = j + 1;
        }
        Series::from_vec(out)
    }

    /// Elementwise `<` against a broadcast scalar.
    pub fn lt_val(&self, rhs: i64) -> (r: Series<bool>)
        ensures
            r@.len() == self@.len(),
            forall|i: int| 0 <= i < self@.len() ==> r@[i] == (self@[i] < rhs),
    {
        let n = self.len();
        let mut out: Vec<bool> = Vec::new();
        let mut j: usize = 0;
        while j < n
            invariant
                j <= n,
                n == self@.len(),
                out@.len() == j,
                forall|k: int| 0 <= k < j ==> out@[k] == (self@[k] < rhs),
            decreases n - j,
        {
            out.push(*self.get(j) < rhs);
            j = j + 1;
        }
        Series::from_vec(out)
    }

    /// Elementwise `<=` against a broadcast scalar.
    pub fn lte_val(&self, rhs: i64) -> (r: Series<bool>)
        ensures
            r@.len() == self@.len(),
            forall|i: int| 0 <= i < self@.len() ==> r@[i] == (self@[i] <= rhs),
    {
        let n = self.len();
        let mut out: Vec<bool> = Vec::new();
        let mut j: usize = 0;
        while j < n
            invariant
                j <= n,
                n == self@.len(),
                out@.len() == j,
                forall|k: int| 0 <= k < j ==> out@[k] == (self@[k] <= rhs),
            decreases n - j,
        {
            out.push(*self.get(j) <= rhs);
            j = j + 1;
        }
        Series::from_vec(out)
    }

    /// Elementwise equality against a broadcast scalar.
    pub fn eq_val(&self, rhs: i64) -> (r: Series<bool>)
        ensures
            r@.len() == self@.len(),
            forall|i: int| 0 <= i < self@.len() ==> r@[i] == (self@[i] == rhs),
    {
        let n = self.len();
        let mut out: Vec<bool> = Vec::new();
        let mut j: usize = 0;
        while j < n
            invariant
                j <= n,
                n == self@.len(),
                out@.len() == j,
                forall|k: int| 0 <= k < j ==> out@[k] == (self@[k] == rhs),
            decreases n - j,
        {
            out.push(*self.get(j) == rhs);
            j = j + 1;
        }
        Series::from_vec(out)
    }

    /// Strict `>` of two equal-length series: `false` wherever either side
    /// still holds the warm-up placeholder.
    pub fn sgt(&self, rhs: &Series<i64>) -> (r: Series<bool>)
        requires
            self@.len() == rhs@.len(),
        ensures
            r@.len() == self@.len(),
            forall|i: int| 0 <= i < self@.len() ==> r@[i] == sgt_at(self@[i], rhs@[i]),
    {
        let n = self.len();
        let mut out: Vec<bool> = Vec::new();
        let mut j: usize = 0;
        while j < n
            invariant
                j <= n,
                n == self@.len() == rhs@.len(),
                out@.len() == j,
                forall|k: int| 0 <= k < j ==> out@[k] == sgt_at(self@[k], rhs@[k]),
            decreases n - j,
        {
            let x = *self.get(j);
            let y = *rhs.get(j);
            out.push(x != 0 && y != 0 && x > y);
            j = j + 1;
        }
        Series::from_vec(out)
    }

    /// Strict `<` of two equal-length series.
    pub fn slt(&self, rhs: &Series<i64>) -> (r: Series<bool>)
        requires
            self@.len() == rhs@.len(),
        ensures
            r@.len() == self@.len(),
            forall|i: int| 0 <= i < self@.len() ==> r@[i] == slt_at(self@[i], rhs@[i]),
    {
        let n = self.len();
        let mut out: Vec<bool> = Vec::new();
        let mut j: usize = 0;
        while j < n
            invariant
                j <= n,
                n == self@.len() == rhs@.len(),
                out@.len() == j,
                forall|k: int| 0 <= k < j ==> out@[k] == slt_at(self@[k], rhs@[k]),
            decreases n - j,
        {
            let x = *self.get(j);
            let y = *rhs.get(j);
            out.push(x != 0 && y != 0 && x < y);
            j = j + 1;
        }
        Series::from_vec(out)
    }

    /// Strict equality of two equal-length series.
    pub fn seq(&self, rhs: &Series<i64>) -> (r: Series<bool>)
        requires
            self@.len() == rhs@.len(),
        ensures
            r@.len() == self@.len(),
            forall|i: int| 0 <= i < self@.len() ==> r@[i] == seq_at(self@[i], rhs@[i]),
    {
        let n = self.len();
        let mut out: Vec<bool> = Vec::new();
        let mut j: usize = 0;
        while j < n
            invariant
                j <= n,
                n == self@.len() == rhs@.len(),
                out@.len() == j,
                forall|k: int| 0 <= k < j ==> out@[k] == seq_at(self@[k], rhs@[k]),
            decreases n - j,
        {
            let x = *self.get(j);
            let y = *rhs.get(j);
            out.push(x != 0 && y != 0 && x == y);
            j = j + 1;
        }
        Series::from_vec(out)
    }

    /// Strict `>` against a broadcast scalar: `false` wherever the series
    /// still holds the warm-up placeholder.
    pub fn sgt_val(&self, rhs: i64) -> (r: Series<bool>)
        ensures
            r@.len() == self@.len(),
            forall|i: int| 0 <= i < self@.len() ==> r@[i] == (self@[i] != 0 && self@[i] > rhs),
    {
        let n = self.len();
        let mut out: Vec<bool> = Vec::new();
        let mut j: usize = 0;
        while j < n
            invariant
                j <= n,
                n == self@.len(),
                out@.len() == j,
                forall|k: int| 0 <= k < j ==> out@[k] == (self@[k] != 0 && self@[k] > rhs),
            decreases n - j,
        {
            let x = *self.get(j);
            out.push(x != 0 && x > rhs);
            j = j + 1;
        }
        Series::from_vec(out)
    }

    /// Strict `<` against a broadcast scalar.
    pub fn slt_val(&self, rhs: i64) -> (r: Series<bool>)
        ensures
            r@.len() == self@.len(),
            forall|i: int| 0 <= i < self@.len() ==> r@[i] == (self@[i] != 0 && self@[i] < rhs),
    {
        let n = self.len();
        let mut out: Vec<bool> = Vec::new();
        let mut j: usize = 0;
        while j < n
            invariant
                j <= n,
                n == self@.len(),
                out@.len() == j,
                forall|k: int| 0 <= k < j ==> out@[k] == (self@[k] != 0 && self@[k] < rhs),
            decreases n - j,
        {
            let x = *self.get(j);
            out.push(x != 0 && x < rhs);
            j = j + 1;
        }
        Series::from_vec(out)
    }

    /// Strict equality against a broadcast scalar.
    pub fn seq_val(&self, rhs: i64) -> (r: Series<bool>)
        ensures
            r@.len() == self@.len(),
            forall|i: int| 0 <= i < self@.len() ==> r@[i] == (self@[i] != 0 && self@[i] == rhs),
    {
        let n = self.len();
        let mut out: Vec<bool> = Vec::new();
        let mut j: usize = 0;
        while j < n
            invariant
                j <= n,
                n == self@.len(),
                out@.len() == j,
                forall|k: int| 0 <= k < j ==> out@[k] == (self@[k] != 0 && self@[k] == rhs),
            decreases n - j,
        {
            let x = *self.get(j);
            out.push(x != 0 && x == rhs);
            j = j + 1;
        }
        Series::from_vec(out)
    }
}

} // verus!
