//! Shapes and row-major (C-order) view metadata.
//!
//! A shape is a sequence of dimension sizes.  The element count of a shape is
//! the product of its dimensions, and the default strides of a shape are the
//! row-major suffix products, so that a freshly constructed view is contiguous
//! starting at offset 0.

use vstd::prelude::*;

verus! {

/// Product of the dimensions of `shape` from position `j` to the end.
///
/// `suffix_numel(shape, 0)` is the total element count; `suffix_numel(shape,
/// j + 1)` is the default row-major stride of dimension `j`.
pub open spec fn suffix_numel(shape: Seq<usize>, j: int) -> nat
    decreases shape.len() - j,
{
    if j < 0 || j >= shape.len() {
        1
    } else {
        (shape[j] as nat) * suffix_numel(shape, j + 1)
    }
}

/// Total number of elements described by `shape`.
pub open spec fn numel(shape: Seq<usize>) -> nat {
    suffix_numel(shape, 0)
}

/// `strides` are exactly the default contiguous (row-major) strides of `shape`.
pub open spec fn strides_ok(shape: Seq<usize>, strides: Seq<usize>) -> bool {
    &&& strides.len() == shape.len()
    &&& forall|j: int| 0 <= j < strides.len() ==> strides[j] == suffix_numel(shape, j + 1)
}

/// Every suffix product of `shape` fits in a `usize`, so default strides can
/// be computed without overflow.
pub open spec fn strides_fit(shape: Seq<usize>) -> bool {
    forall|j: int| 0 <= j <= shape.len() ==> #[trigger] suffix_numel(shape, j) <= usize::MAX
}

/// Computes the default contiguous (row-major) strides of `shape`.
pub fn contiguous_strides(shape: &Vec<usize>) -> (strides: Vec<usize>)
    requires
        strides_fit(shape@),
    ensures
        strides_ok(shape@, strides@),
{
    let n = shape.len();
    let mut rev: Vec<usize> = Vec::new();
    let mut acc: usize = 1;
    let mut j: usize = n;
    while j > 0
        invariant
            j <= n,
            n == shape@.len(),
            strides_fit(shape@),
            acc == suffix_numel(shape@, j as int),
            rev@.len() == n - j,
            forall|k: int| 0 <= k < rev@.len() ==> rev@[k] == suffix_numel(shape@, n - k),
        decreases j,
    {
        rev.push(acc);
        proof {
            assert(suffix_numel(shape@, j - 1) == (shape@[j - 1] as nat) * suffix_numel(
                shape@,
                j as int,
            ));
            assert(suffix_numel(shape@, j - 1) <= usize::MAX);
        }
        acc = shape[j - 1] * acc;
        j = j - 1;
    }
    let mut strides: Vec<usize> = Vec::new();
    let mut d: usize = 0;
    while d < n
        invariant
            d <= n,
            n == shape@.len(),
            rev@.len() == n,
            strides@.len() == d,
            forall|k: int| 0 <= k < n ==> rev@[k] == suffix_numel(shape@, n - k),
            forall|t: int| 0 <= t < d ==> strides@[t] == suffix_numel(shape@, t + 1),
        decreases n - d,
    {
        strides.push(rev[n - 1 - d]);
        d = d + 1;
    }
    strides
}

/// Reports whether two shape vectors are equal as sequences.
pub fn shapes_equal(a: &Vec<usize>, b: &Vec<usize>) -> (r: bool)
    ensures
        r == (a@ == b@),
{
    if a.len() != b.len() {
        return false;
    }
    let n = a.len();
    let mut i: usize = 0;
    while i < n
        invariant
            i <= n,
            n == a@.len(),
            a@.len() == b@.len(),
            forall|k: int| 0 <= k < i ==> a@[k] == b@[k],
        decreases n - i,
    {
        if a[i] != b[i] {
            return false;
        }
        i = i + 1;
    }
    proof {
        assert(a@ =~= b@);
    }
    true
}

} // verus!
