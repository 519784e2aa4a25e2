//! Position-wise boolean algebra on boolean series, used to express
//! multi-condition entry and exit logic as a single mask without explicit
//! loops in the caller.

use vstd::prelude::*;
use crate::series::Series;

verus! {

impl Series<bool> {
    /// Position-wise conjunction of two equal-length masks.
    pub fn and(&self, rhs: &Series<bool>) -> (r: Series<bool>)
        requires
            self@.len() == rhs@.len(),
        ensures
            r@.len() == self@.len(),
            forall|i: int| 0 <= i < self@.len() ==> r@[i] == (self@[i] && rhs@[i]),
    {
        let n = self.len();
        let mut out: Vec<bool> = Vec::new();
        let mut j: usize = 0;
        while j < n
            invariant
                j <= n,
                n == self@.len() == rhs@.len(),
                out@.len() == j,
                forall|k: int| 0 <= k < j ==> out@[k] == (self@[k] && rhs@[k]),
            decreases n - j,
        {
            out.push(*self.get(j) && *rhs.get(j));
            j = j + 1;
        }
        Series::from_vec(out)
    }

    /// Position-wise disjunction of two equal-length masks.
    pub fn or(&self, rhs: &Series<bool>) -> (r: Series<bool>)
        requires
            self@.len() == rhs@.len(),
        ensures
            r@.len() == self@.len(),
            forall|i: int| 0 <= i < self@.len() ==> r@[i] == (self@[i] || rhs@[i]),
    {
        let n = self.len();
        let mut out: Vec<bool> = Vec::new();
        let mut j: usize = 0;
        while j < n
            invariant
                j <= n,
                n == self@.len() == rhs@.len(),
                out@.len() == j,
                forall|k: int| 0 <= k < j ==> out@[k] == (self@[k] || rhs@[k]),
            decreases n - j,
        {
            out.push(*self.get(j) || *rhs.get(j));
            j = j + 1;
        }
        Series::from_vec(out)
    }

    /// Position-wise negation of a mask.
    pub fn not(&self) -> (r: Series<bool>)
        ensures
            r@.len() == self@.len(),
            forall|i: int| 0 <= i < self@.len() ==> r@[i] == !self@[i],
    {
        let n = self.len();
        let mut out: Vec<bool> = Vec::new();
        let mut j: usize = 0;
        while j < n
            invariant
                j <= n,
                n == self@.len(),
                out@.len() == j,
                forall|k: int| 0 <= k < j ==> out@[k] == !self@[k],
            decreases n - j,
        {
            out.push(!*self.get(j));
            j = j + 1;
        }
        Series::from_vec(out)
    }
}

} // verus!
