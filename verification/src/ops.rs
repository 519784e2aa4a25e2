//! Elementwise arithmetic between two equal-length series, and between a
//! series and a scalar. Each operator allocates a new series of the same
//! length with `result[i] == op(lhs[i], rhs[i])` in the saturating scalar
//! arithmetic of `math`. Operands of different lengths are a contract
//! violation, never a silent truncation.

use vstd::prelude::*;
use crate::math::add_sat;
use crate::math::div_sat;
use crate::math::exec_add_sat;
use crate::math::exec_div_sat;
use crate::math::exec_mul_sat;
use crate::math::exec_neg_sat;
use crate::math::exec_sub_sat;
use crate::math::mul_sat;
use crate::math::neg_sat;
use crate::math::sub_sat;
use crate::series::Series;

verus! {

pub open spec fn add_spec(a: Seq<i64>, b: Seq<i64>) -> Seq<i64> {
    Seq::new(a.len(), |i: int| add_sat(a[i], b[i]))
}

pub open spec fn sub_spec(a: Seq<i64>, b: Seq<i64>) -> Seq<i64> {
    Seq::new(a.len(), |i: int| sub_sat(a[i], b[i]))
}

pub open spec fn mul_spec(a: Seq<i64>, b: Seq<i64>) -> Seq<i64> {
    Seq::new(a.len(), |i: int| mul_sat(a[i], b[i]))
}

pub open spec fn div_spec(a: Seq<i64>, b: Seq<i64>) -> Seq<i64> {
    Seq::new(a.len(), |i: int| div_sat(a[i], b[i]))
}

pub open spec fn neg_spec(a: Seq<i64>) -> Seq<i64> {
    Seq::new(a.len(), |i: int| neg_sat(a[i]))
}

impl Series<i64> {
    /// Elementwise sum of two equal-length series.
    pub fn add(&self, rhs: &Series<i64>) -> (r: Series<i64>)
        requires
            self@.len() == rhs@.len(),
        ensures
            r@ == add_spec(self@, rhs@),
            r@.len() == self@.len(),
    {
        let n = self.len();
        let mut out: Vec<i64> = Vec::new();
        let mut j: usize = 0;
        while j < n
            invariant
                j <= n,
                n == self@.len() == rhs@.len(),
                out@.len() == j,
                forall|k: int| 0 <= k < j ==> out@[k] == add_sat(self@[k], rhs@[k]),
            decreases n - j,
        {
            out.push(exec_add_sat(*self.get(j), *rhs.get(j)));
            j = j + 1;
        }
        assert(out@ =~= add_spec(self@, rhs@));
        Series::from_vec(out)
    }

    /// Elementwise difference of two equal-length series.
    pub fn sub(&self, rhs: &Series<i64>) -> (r: Series<i64>)
        requires
            self@.len() == rhs@.len(),
        ensures
            r@ == sub_spec(self@, rhs@),
            r@.len() == self@.len(),
    {
        let n = self.len();
        let mut out: Vec<i64> = Vec::new();
        let mut j: usize = 0;
        while j < n
            invariant
                j <= n,
                n == self@.len() == rhs@.len(),
                out@.len() == j,
                forall|k: int| 0 <= k < j ==> out@[k] == sub_sat(self@[k], rhs@[k]),
            decreases n - j,
        {
            out.push(exec_sub_sat(*self.get(j), *rhs.get(j)));
            j = j + 1;
        }
        assert(out@ =~= sub_spec(self@, rhs@));
        Series::from_vec(out)
    }

    /// Elementwise product of two equal-length series.
    pub fn mul(&self, rhs: &Series<i64>) -> (r: Series<i64>)
        requires
            self@.len() == rhs@.len(),
        ensures
            r@ == mul_spec(self@, rhs@),
            r@.len() == self@.len(),
    {
        let n = self.len();
        let mut out: Vec<i64> = Vec::new();
        let mut j: usize = 0;
        while j < n
            invariant
                j <= n,
                n == self@.len() == rhs@.len(),
                out@.len() == j,
                forall|k: int| 0 <= k < j ==> out@[k] == mul_sat(self@[k], rhs@[k]),
            decreases n - j,
        {
            out.push(exec_mul_sat(*self.get(j), *rhs.get(j)));
            j = j + 1;
        }
        assert(out@ =~= mul_spec(self@, rhs@));
        Series::from_vec(out)
    }

    /// Elementwise quotient of two equal-length series, total under the
    /// zero-divisor policy of `div_sat`.
    pub fn div(&self, rhs: &Series<i64>) -> (r: Series<i64>)
        requires
            self@.len() == rhs@.len(),
        ensures
            r@ == div_spec(self@, rhs@),
            r@.len() == self@.len(),
    {
        let n = self.len();
        let mut out: Vec<i64> = Vec::new();
        let mut j: usize = 0;
        while j < n
            invariant
                j <= n,
                n == self@.len() == rhs@.len(),
                out@.len() == j,
                forall|k: int| 0 <= k < j ==> out@[k] == div_sat(self@[k], rhs@[k]),
            decreases n - j,
        {
            out.push(exec_div_sat(*self.get(j), *rhs.get(j)));
            j = j + 1;
        }
        assert(out@ =~= div_spec(self@, rhs@));
        Series::from_vec(out)
    }

    /// Elementwise sign flip.
    pub fn negate(&self) -> (r: Series<i64>)
        ensures
            r@ == neg_spec(self@),
            r@.len() == self@.len(),
    {
        let n = self.len();
        let mut out: Vec<i64> = Vec::new();
        let mut j: usize = 0;
        while j < n
            invariant
                j <= n,
                n == self@.len(),
                out@.len() == j,
                forall|k: int| 0 <= k < j ==> out@[k] == neg_sat(self@[k]),
            decreases n - j,
        {
            out.push(exec_neg_sat(*self.get(j)));
            j = j + 1;
        }
        assert(out@ =~= neg_spec(self@));
        Series::from_vec(out)
    }

    /// Series plus a broadcast scalar.
    pub fn add_val(&self, rhs: i64) -> (r: Series<i64>)
        ensures
            r@.len() == self@.len(),
            forall|i: int| 0 <= i < self@.len() ==> r@[i] == add_sat(self@[i], rhs),
    {
        let n = self.len();
        let mut out: Vec<i64> = Vec::new();
        let mut j: usize = 0;
        while j < n
            invariant
                j <= n,
                n == self@.len(),
                out@.len() == j,
                forall|k: int| 0 <= k < j ==> out@[k] == add_sat(self@[k], rhs),
            decreases n - j,
        {
            out.push(exec_add_sat(*self.get(j), rhs));
            j = j + 1;
        }
        Series::from_vec(out)
    }

    /// Series minus a broadcast scalar.
    pub fn sub_val(&self, rhs: i64) -> (r: Series<i64>)
        ensures
            r@.len() == self@.len(),
            forall|i: int| 0 <= i < self@.len() ==> r@[i] == sub_sat(self@[i], rhs),
    {
        let n = self.len();
        let mut out: Vec<i64> = Vec::new();
        let mut j: usize = 0;
        while j < n
            invariant
                j <= n,
                n == self@.len(),
                out@.len() == j,
                forall|k: int| 0 <= k < j ==> out@[k] == sub_sat(self@[k], rhs),
            decreases n - j,
        {
            out.push(exec_sub_sat(*self.get(j), rhs));
            j = j + 1;
        }
        Series::from_vec(out)
    }

    /// Broadcast scalar minus the series.
    pub fn rsub_val(&self, lhs: i64) -> (r: Series<i64>)
        ensures
            r@.len() == self@.len(),
            forall|i: int| 0 <= i < self@.len() ==> r@[i] == sub_sat(lhs, self@[i]),
    {
        let n = self.len();
        let mut out: Vec<i64> = Vec::new();
        let mut j: usize = 0;
        while j < n
            invariant
                j <= n,
                n == self@.len(),
                out@.len() == j,
                forall|k: int| 0 <= k < j ==> out@[k] == sub_sat(lhs, self@[k]),
            decreases n - j,
        {
            out.push(exec_sub_sat(lhs, *self.get(j)));
            j = j + 1;
        }
        Series::from_vec(out)
    }

    /// Series times a broadcast scalar.
    pub fn mul_val(&self, rhs: i64) -> (r: Series<i64>)
        ensures
            r@.len() == self@.len(),
            forall|i: int| 0 <= i < self@.len() ==> r@[i] == mul_sat(self@[i], rhs),
    {
        let n = self.len();
        let mut out: Vec<i64> = Vec::new();
        let mut j: usize = 0;
        while j < n
            invariant
                j <= n,
                n == self@.len(),
                out@.len() == j,
                forall|k: int| 0 <= k < j ==> out@[k] == mul_sat(self@[k], rhs),
            decreases n - j,
        {
            out.push(exec_mul_sat(*self.get(j), rhs));
            j = j + 1;
        }
        Series::from_vec(out)
    }

    /// Series divided by a broadcast scalar.
    pub fn div_val(&self, rhs: i64) -> (r: Series<i64>)
        ensures
            r@.len() == self@.len(),
            forall|i: int| 0 <= i < self@.len() ==> r@[i] == div_sat(self@[i], rhs),
    {
        let n = self.len();
        let mut out: Vec<i64> = Vec::new();
        let mut j: usize = 0;
        while j < n
            invariant
                j <= n,
                n == self@.len(),
                out@.len() == j,
                forall|k: int| 0 <= k < j ==> out@[k] == div_sat(self@[k], rhs),
            decreases n - j,
        {
            out.push(exec_div_sat(*self.get(j), rhs));
            j = j + 1;
        }
        Series::from_vec(out)
    }

    /// Broadcast scalar divided by the series.
    pub fn rdiv_val(&self, lhs: i64) -> (r: Series<i64>)
        ensures
            r@.len() == self@.len(),
            forall|i: int| 0 <= i < self@.len() ==> r@[i] == div_sat(lhs, self@[i]),
    {
        let n = self.len();
        let mut out: Vec<i64> = Vec::new();
        let mut j: usize = 0;
        while j < n
            invariant
                j <= n,
                n == self@.len(),
                out@.len() == j,
                forall|k: int| 0 <= k < j ==> out@[k] == div_sat(lhs, self@[k]),
            decreases n - j,
        {
            out.push(exec_div_sat(lhs, *self.get(j)));
            j = j + 1;
        }
        Series::from_vec(out)
    }
}

} // verus!
