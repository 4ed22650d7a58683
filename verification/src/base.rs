//! The raw tensor core: a shared flat storage buffer plus view metadata.
//!
//! A [`BaseTensor`] interprets a reference-counted flat buffer of `i64`
//! elements through a shape / strides / offset triple.  Several tensors may
//! alias one buffer; every producing operation materializes a fresh
//! contiguous buffer for its result instead of writing into its inputs.

use crate::shape::{contiguous_strides, numel, shapes_equal, strides_fit, strides_ok, suffix_numel};
use std::rc::Rc;
use vstd::prelude::*;

verus! {

/// Errors of the recoverable tensor operations.
#[derive(Clone, Copy, Debug, PartialEq, Eq, Structural)]
pub enum TensorError {
    /// The operands of an elementwise operation have different shapes.
    ShapeMismatch,
    /// A multi-index does not address an element inside the storage buffer.
    OutOfBounds,
}

/// Elementwise sum of two equally shaped element sequences.
///
/// Sums are taken in the element type; [`sums_fit`] says when no sum wraps.
pub open spec fn elemwise_sum(a: Seq<i64>, b: Seq<i64>) -> Seq<i64> {
    Seq::new(a.len(), |i: int| (a[i] + b[i]) as i64)
}

/// Elementwise difference of two equally shaped element sequences.
pub open spec fn elemwise_diff(a: Seq<i64>, b: Seq<i64>) -> Seq<i64> {
    Seq::new(a.len(), |i: int| (a[i] - b[i]) as i64)
}

/// Elementwise negation of an element sequence.
pub open spec fn elemwise_neg(a: Seq<i64>) -> Seq<i64> {
    Seq::new(a.len(), |i: int| (-a[i]) as i64)
}

/// Every elementwise sum of `a` and `b` fits in the element type.
pub open spec fn sums_fit(a: Seq<i64>, b: Seq<i64>) -> bool {
    forall|i: int|
        0 <= i < a.len() && i < b.len() ==> i64::MIN <= #[trigger] a[i] + b[i] <= i64::MAX
}

/// Every elementwise difference of `a` and `b` fits in the element type.
pub open spec fn diffs_fit(a: Seq<i64>, b: Seq<i64>) -> bool {
    forall|i: int|
        0 <= i < a.len() && i < b.len() ==> i64::MIN <= #[trigger] a[i] - b[i] <= i64::MAX
}

/// Every element of `a` can be negated without wrapping.
pub open spec fn negs_fit(a: Seq<i64>) -> bool {
    forall|i: int| 0 <= i < a.len() ==> #[trigger] a[i] != i64::MIN
}

/// Storage offset contributed by the first `j` coordinates of `idx`.
pub open spec fn dot_prefix(idx: Seq<usize>, strides: Seq<usize>, j: int) -> nat
    decreases j,
{
    if j <= 0 {
        0
    } else {
        dot_prefix(idx, strides, j - 1) + (idx[j - 1] as nat) * (strides[j - 1] as nat)
    }
}

/// Storage position addressed by multi-index `idx` under `strides` from `offset`.
pub open spec fn storage_pos(offset: nat, idx: Seq<usize>, strides: Seq<usize>) -> nat {
    offset + dot_prefix(idx, strides, idx.len() as int)
}

proof fn lemma_data_len_bound(t: BaseTensor)
    ensures
        t.data@.len() <= usize::MAX,
{
    assert((*t.data).len() == t.data@.len());
}

proof fn lemma_dot_prefix_mono(idx: Seq<usize>, strides: Seq<usize>, j: int, k: int)
    requires
        0 <= j <= k,
    ensures
        dot_prefix(idx, strides, j) <= dot_prefix(idx, strides, k),
    decreases k - j,
{
    if j < k {
        lemma_dot_prefix_mono(idx, strides, j, k - 1);
    }
}

/// Core tensor value: shared flat storage plus owned view metadata.
///
/// The buffer is shared (reference-counted); shape, strides and offset are
/// plain owned values describing how logical indices map onto the buffer.
pub struct BaseTensor {
    /// Flat element storage, possibly aliased by other views.
    pub data: Rc<Vec<i64>>,
    /// Dimension sizes of the view.
    pub shape: Vec<usize>,
    /// Per-dimension storage step widths.
    pub strides: Vec<usize>,
    /// Storage position of the first element of the view.
    pub offset: usize,
}

impl BaseTensor {
    /// Well-formed: the strides are the contiguous row-major defaults for the
    /// shape and the whole view lies inside the storage buffer.
    pub open spec fn wf(self) -> bool {
        &&& strides_ok(self.shape@, self.strides@)
        &&& self.offset + numel(self.shape@) <= self.data@.len()
    }

    /// The logical elements of the view in row-major order.
    pub open spec fn elems(self) -> Seq<i64> {
        self.data@.subrange(self.offset as int, self.offset + numel(self.shape@))
    }

    /// Both tensors hold the same storage contents and view metadata.
    pub open spec fn same_view(self, other: BaseTensor) -> bool {
        &&& self.data@ == other.data@
        &&& self.shape@ == other.shape@
        &&& self.strides@ == other.strides@
        &&& self.offset == other.offset
    }

    /// `idx` addresses an element of the view: one coordinate per dimension,
    /// each within its bound, and the addressed position inside the buffer.
    pub open spec fn index_ok(self, idx: Seq<usize>) -> bool {
        &&& idx.len() == self.shape@.len()
        &&& idx.len() == self.strides@.len()
        &&& forall|j: int| 0 <= j < idx.len() ==> idx[j] < self.shape@[j]
        &&& storage_pos(self.offset as nat, idx, self.strides@) < self.data@.len()
    }

    /// Builds a fresh contiguous tensor over `data` with the given `shape`.
    ///
    /// Strides are derived as the row-major defaults and the offset is 0;
    /// the caller supplies exactly one element per logical position.
    pub fn new(data: Vec<i64>, shape: Vec<usize>) -> (t: BaseTensor)
        requires
            data@.len() == numel(shape@),
            strides_fit(shape@),
        ensures
            t.wf(),
            t.data@ == data@,
            t.shape@ == shape@,
            t.offset == 0,
            t.elems() == data@,
    {
        let strides = contiguous_strides(&shape);
        let t = BaseTensor { data: Rc::new(data), shape, strides, offset: 0 };
        proof {
            assert(t.elems() =~= t.data@);
        }
        t
    }

    /// Number of elements of the view.
    pub fn element_count(&self) -> (n: usize)
        requires
            self.wf(),
        ensures
            n == numel(self.shape@),
    {
        if self.shape.len() == 0 {
            1
        } else {
            proof {
                lemma_data_len_bound(*self);
                assert(numel(self.shape@) == (self.shape@[0] as nat) * suffix_numel(
                    self.shape@,
                    1,
                ));
                assert(self.strides@[0] == suffix_numel(self.shape@, 1));
            }
            self.shape[0] * self.strides[0]
        }
    }

    /// Reads the element at multi-index `index`, checking the coordinates
    /// against the shape and the addressed position against the buffer.
    pub fn get(&self, index: &Vec<usize>) -> (r: Result<i64, TensorError>)
        ensures
            self.index_ok(index@) ==> r == Ok::<i64, TensorError>(
                self.data@[storage_pos(self.offset as nat, index@, self.strides@) as int],
            ),
            !self.index_ok(index@) ==> r == Err::<i64, TensorError>(TensorError::OutOfBounds),
    {
        if index.len() != self.shape.len() || index.len() != self.strides.len() {
            return Err(TensorError::OutOfBounds);
        }
        let n = index.len();
        let mut pos: usize = self.offset;
        let mut j: usize = 0;
        while j < n
            invariant
                j <= n,
                n == index@.len(),
                n == self.shape@.len(),
                n == self.strides@.len(),
                forall|k: int| 0 <= k < j ==> index@[k] < self.shape@[k],
                pos == self.offset + dot_prefix(index@, self.strides@, j as int),
            decreases n - j,
        {
            if index[j] >= self.shape[j] {
                return Err(TensorError::OutOfBounds);
            }
            let term = match index[j].checked_mul(self.strides[j]) {
                Some(t) => t,
                None => {
                    proof {
                        lemma_data_len_bound(*self);
                        lemma_dot_prefix_mono(index@, self.strides@, j + 1, n as int);
                    }
                    return Err(TensorError::OutOfBounds);
                },
            };
            pos = match pos.checked_add(term) {
                Some(p) => p,
                None => {
                    proof {
                        lemma_data_len_bound(*self);
                        lemma_dot_prefix_mono(index@, self.strides@, j + 1, n as int);
                    }
                    return Err(TensorError::OutOfBounds);
                },
            };
            j = j + 1;
        }
        let dlen = (*self.data).len();
        if pos < dlen {
            Ok((*self.data)[pos])
        } else {
            Err(TensorError::OutOfBounds)
        }
    }

    /// Elementwise addition.  Produces a freshly materialized contiguous
    /// tensor of the same shape; neither input is written to.
    pub fn add(&self, rhs: &BaseTensor) -> (r: BaseTensor)
        requires
            self.wf(),
            rhs.wf(),
            self.shape@ == rhs.shape@,
            sums_fit(self.elems(), rhs.elems()),
        ensures
            r.wf(),
            r.shape@ == self.shape@,
            r.strides@ == self.strides@,
            r.offset == 0,
            r.data@.len() == numel(self.shape@),
            r.elems() == elemwise_sum(self.elems(), rhs.elems()),
    {
        let total = self.element_count();
        let mut out: Vec<i64> = Vec::new();
        let mut i: usize = 0;
        while i < total
            invariant
                i <= total,
                total == numel(self.shape@),
                self.wf(),
                rhs.wf(),
                self.shape@ == rhs.shape@,
                sums_fit(self.elems(), rhs.elems()),
                out@.len() == i,
                forall|k: int| 0 <= k < i ==> out@[k] == elemwise_sum(self.elems(), rhs.elems())[k],
            decreases total - i,
        {
            proof {
                lemma_data_len_bound(*self);
                lemma_data_len_bound(*rhs);
            }
            let va: i64 = (*self.data)[self.offset + i];
            let vb: i64 = (*rhs.data)[rhs.offset + i];
            proof {
                assert(va == self.elems()[i as int]);
                assert(vb == rhs.elems()[i as int]);
            }
            out.push(va + vb);
            i = i + 1;
        }
        let r = BaseTensor {
            data: Rc::new(out),
            shape: self.shape.clone(),
            strides: self.strides.clone(),
            offset: 0,
        };
        proof {
            assert(r.shape@ =~= self.shape@);
            assert(r.strides@ =~= self.strides@);
            assert(r.elems() =~= elemwise_sum(self.elems(), rhs.elems()));
        }
        r
    }

    /// Elementwise subtraction.  Produces a freshly materialized contiguous
    /// tensor of the same shape; neither input is written to.
    pub fn sub(&self, rhs: &BaseTensor) -> (r: BaseTensor)
        requires
            self.wf(),
            rhs.wf(),
            self.shape@ == rhs.shape@,
            diffs_fit(self.elems(), rhs.elems()),
        ensures
            r.wf(),
            r.shape@ == self.shape@,
            r.strides@ == self.strides@,
            r.offset == 0,
            r.data@.len() == numel(self.shape@),
            r.elems() == elemwise_diff(self.elems(), rhs.elems()),
    {
        let total = self.element_count();
        let mut out: Vec<i64> = Vec::new();
        let mut i: usize = 0;
        while i < total
            invariant
                i <= total,
                total == numel(self.shape@),
                self.wf(),
                rhs.wf(),
                self.shape@ == rhs.shape@,
                diffs_fit(self.elems(), rhs.elems()),
                out@.len() == i,
                forall|k: int| 0 <= k < i ==> out@[k] == elemwise_diff(self.elems(), rhs.elems())[k],
            decreases total - i,
        {
            proof {
                lemma_data_len_bound(*self);
                lemma_data_len_bound(*rhs);
            }
            let va: i64 = (*self.data)[self.offset + i];
            let vb: i64 = (*rhs.data)[rhs.offset + i];
            proof {
                assert(va == self.elems()[i as int]);
                assert(vb == rhs.elems()[i as int]);
            }
            out.push(va - vb);
            i = i + 1;
        }
        let r = BaseTensor {
            data: Rc::new(out),
            shape: self.shape.clone(),
            strides: self.strides.clone(),
            offset: 0,
        };
        proof {
            assert(r.shape@ =~= self.shape@);
            assert(r.strides@ =~= self.strides@);
            assert(r.elems() =~= elemwise_diff(self.elems(), rhs.elems()));
        }
        r
    }

    /// Elementwise negation.  Produces a freshly materialized contiguous
    /// tensor of the same shape.
    pub fn neg(&self) -> (r: BaseTensor)
        requires
            self.wf(),
            negs_fit(self.elems()),
        ensures
            r.wf(),
            r.shape@ == self.shape@,
            r.strides@ == self.strides@,
            r.offset == 0,
            r.data@.len() == numel(self.shape@),
            r.elems() == elemwise_neg(self.elems()),
    {
        let total = self.element_count();
        let mut out: Vec<i64> = Vec::new();
        let mut i: usize = 0;
        while i < total
            invariant
                i <= total,
                total == numel(self.shape@),
                self.wf(),
                negs_fit(self.elems()),
                out@.len() == i,
                forall|k: int| 0 <= k < i ==> out@[k] == elemwise_neg(self.elems())[k],
            decreases total - i,
        {
            proof {
                lemma_data_len_bound(*self);
            }
            let va: i64 = (*self.data)[self.offset + i];
            proof {
                assert(va == self.elems()[i as int]);
            }
            out.push(-va);
            i = i + 1;
        }
        let r = BaseTensor {
            data: Rc::new(out),
            shape: self.shape.clone(),
            strides: self.strides.clone(),
            offset: 0,
        };
        proof {
            assert(r.shape@ =~= self.shape@);
            assert(r.strides@ =~= self.strides@);
            assert(r.elems() =~= elemwise_neg(self.elems()));
        }
        r
    }

    /// Recoverable variant of [`BaseTensor::add`]: reports a shape mismatch
    /// as an error before any element is computed.
    pub fn checked_add(&self, rhs: &BaseTensor) -> (r: Result<BaseTensor, TensorError>)
        requires
            self.wf(),
            rhs.wf(),
            self.shape@ == rhs.shape@ ==> sums_fit(self.elems(), rhs.elems()),
        ensures
            self.shape@ == rhs.shape@ ==> (r matches Ok(t) && t.wf() && t.shape@ == self.shape@
                && t.offset == 0 && t.elems() == elemwise_sum(self.elems(), rhs.elems())),
            self.shape@ != rhs.shape@ ==> r == Err::<BaseTensor, TensorError>(
                TensorError::ShapeMismatch,
            ),
    {
        if shapes_equal(&self.shape, &rhs.shape) {
            Ok(self.add(rhs))
        } else {
            Err(TensorError::ShapeMismatch)
        }
    }

    /// Recoverable variant of [`BaseTensor::sub`]: reports a shape mismatch
    /// as an error before any element is computed.
    pub fn checked_sub(&self, rhs: &BaseTensor) -> (r: Result<BaseTensor, TensorError>)
        requires
            self.wf(),
            rhs.wf(),
            self.shape@ == rhs.shape@ ==> diffs_fit(self.elems(), rhs.elems()),
        ensures
            self.shape@ == rhs.shape@ ==> (r matches Ok(t) && t.wf() && t.shape@ == self.shape@
                && t.offset == 0 && t.elems() == elemwise_diff(self.elems(), rhs.elems())),
            self.shape@ != rhs.shape@ ==> r == Err::<BaseTensor, TensorError>(
                TensorError::ShapeMismatch,
            ),
    {
        if shapes_equal(&self.shape, &rhs.shape) {
            Ok(self.sub(rhs))
        } else {
            Err(TensorError::ShapeMismatch)
        }
    }
}

impl Clone for BaseTensor {
    /// Duplicates the view; the storage buffer is shared, not copied.
    fn clone(&self) -> (res: Self)
        ensures
            res.same_view(*self),
    {
        let res = BaseTensor {
            data: Rc::clone(&self.data),
            shape: self.shape.clone(),
            strides: self.strides.clone(),
            offset: self.offset,
        };
        proof {
            assert(res.shape@ =~= self.shape@);
            assert(res.strides@ =~= self.strides@);
        }
        res
    }
}

proof fn lemma_dot_prefix_bound(shape: Seq<usize>, strides: Seq<usize>, idx: Seq<usize>, j: int)
    requires
        strides_ok(shape, strides),
        idx.len() == shape.len(),
        0 <= j <= idx.len(),
        forall|k: int| 0 <= k < idx.len() ==> idx[k] < shape[k],
    ensures
        dot_prefix(idx, strides, j) + suffix_numel(shape, j) <= numel(shape),
    decreases j,
{
    if j > 0 {
        lemma_dot_prefix_bound(shape, strides, idx, j - 1);
        assert(strides[j - 1] == suffix_numel(shape, j));
        assert(suffix_numel(shape, j - 1) == (shape[j - 1] as nat) * suffix_numel(shape, j));
        assert((idx[j - 1] as nat) * (strides[j - 1] as nat) + (strides[j - 1] as nat) <= (shape[j
            - 1] as nat) * (strides[j - 1] as nat)) by (nonlinear_arith)
            requires
                (idx[j - 1] as nat) < (shape[j - 1] as nat),
        ;
    }
}

/// On a well-formed tensor, a multi-index with one coordinate per dimension,
/// each within its bound, always addresses an element inside the storage
/// buffer, so element access is owed success.
pub proof fn lemma_wf_index_in_bounds(t: BaseTensor, idx: Seq<usize>)
    requires
        t.wf(),
        idx.len() == t.shape@.len(),
        forall|j: int| 0 <= j < idx.len() ==> idx[j] < t.shape@[j],
    ensures
        t.index_ok(idx),
{
    lemma_dot_prefix_bound(t.shape@, t.strides@, idx, idx.len() as int);
    assert(suffix_numel(t.shape@, idx.len() as int) == 1);
}

/// Addition of equally shaped tensors is commutative: summing the elements
/// of `a` with those of `b` gives the same sequence as summing `b` with `a`.
pub proof fn lemma_add_commutative(a: BaseTensor, b: BaseTensor)
    requires
        a.wf(),
        b.wf(),
        a.shape@ == b.shape@,
    ensures
        elemwise_sum(a.elems(), b.elems()) == elemwise_sum(b.elems(), a.elems()),
{
    assert(elemwise_sum(a.elems(), b.elems()) =~= elemwise_sum(b.elems(), a.elems()));
}

} // verus!
