//! The series container: an owned, fixed-length, index-aligned sequence of
//! scalars. A series is never mutated after construction; every transform in
//! the engine reads its inputs and allocates a fresh output.

use vstd::prelude::*;

verus! {

/// An ordered, fixed-length sequence of scalars. The numeric instance holds
/// fixed-point `i64` values; the boolean instance carries event masks.
pub struct Series<T> {
    data: Vec<T>,
}

impl<T> View for Series<T> {
    type V = Seq<T>;

    closed spec fn view(&self) -> Seq<T> {
        self.data@
    }
}

impl<T> Series<T> {
    /// Wrap an owned vector; the series keeps its length and order.
    pub fn from_vec(values: Vec<T>) -> (s: Series<T>)
        ensures
            s@ == values@,
    {
        Series { data: values }
    }

    pub fn len(&self) -> (n: usize)
        ensures
            n == self@.len(),
    {
        self.data.len()
    }

    /// Position `i` of the series; indexing past the end is a contract
    /// violation, not a truncation.
    pub fn get(&self, i: usize) -> (x: &T)
        requires
            i < self@.len(),
        ensures
            *x == self@[i as int],
    {
        &self.data[i]
    }

    /// Hand the backing storage to the caller: the plain ordered sequence
    /// the series was built from, unchanged.
    pub fn to_vec(self) -> (values: Vec<T>)
        ensures
            values@ == self@,
    {
        self.data
    }
}

impl<T: Copy> Series<T> {
    /// Copy a borrowed slice into a fresh series of the same length and
    /// order.
    pub fn from_slice(values: &[T]) -> (s: Series<T>)
        ensures
            s@ == values@,
    {
        let n = values.len();
        let mut data: Vec<T> = Vec::new();
        let mut j: usize = 0;
        while j < n
            invariant
                j <= n,
                n == values@.len(),
                data@.len() == j,
                forall|i: int| 0 <= i < j ==> data@[i] == values@[i],
            decreases n - j,
        {
            data.push(*vstd::slice::slice_index_get(values, j));
            j = j + 1;
        }
        assert(data@ =~= values@);
        Series { data }
    }

    /// A constant-filled series of the given length.
    pub fn fill(value: T, len: usize) -> (s: Series<T>)
        ensures
            s@.len() == len,
            forall|i: int| 0 <= i < len ==> s@[i] == value,
    {
        let mut data: Vec<T> = Vec::new();
        let mut j: usize = 0;
        while j < len
            invariant
                j <= len,
                data@.len() == j,
                forall|i: int| 0 <= i < j ==> data@[i] == value,
            decreases len - j,
        {
            data.push(value);
            j = j + 1;
        }
        Series { data }
    }
}

impl Series<i64> {
    /// A series of the given length holding the numeric neutral value.
    pub fn empty(len: usize) -> (s: Series<i64>)
        ensures
            s@.len() == len,
            forall|i: int| 0 <= i < len ==> s@[i] == 0i64,
    {
        Series::fill(0i64, len)
    }
}

impl Series<bool> {
    /// A series of the given length holding the boolean neutral value.
    pub fn empty(len: usize) -> (s: Series<bool>)
        ensures
            s@.len() == len,
            forall|i: int| 0 <= i < len ==> s@[i] == false,
    {
        Series::fill(false, len)
    }
}

} // verus!
