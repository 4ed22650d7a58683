//! The composed tensor: a base value plus capability slots.
//!
//! Arithmetic delegates shape checking and element computation to the
//! [`BaseTensor`] level, then rewraps the result.  When the gradient
//! capability of the tensor's static type is the tracking one, the operation
//! additionally records a backward function referencing both inputs; when it
//! is not, no bookkeeping happens at all.

use crate::autograd::{AutoGrad, AutogradInfo, NoExtraInfo, TensorOp};
use crate::base::{diffs_fit, elemwise_diff, elemwise_sum, sums_fit, BaseTensor, TensorError};
use crate::shape::{numel, shapes_equal, strides_fit};
use vstd::prelude::*;

verus! {

/// A tensor: a [`BaseTensor`] together with a gradient capability `G` and a
/// reserved extension capability slot `Q` (for future features such as
/// quantization).
pub struct Tensor<G: AutoGrad, Q> {
    /// The data view the arithmetic operates on.
    pub base: BaseTensor,
    /// The gradient-tracking capability.
    pub grad: G,
    /// Reserved extension capability; carried through operations unchanged.
    pub quant: Q,
}

/// Tensor type used for training: operations record backward functions.
pub type TrainingTensor = Tensor<AutogradInfo, NoExtraInfo>;

/// Tensor type used for inference: no gradient bookkeeping at all.
pub type InferenceTensor = Tensor<NoExtraInfo, NoExtraInfo>;

impl<G: AutoGrad> Tensor<G, NoExtraInfo> {
    /// Builds a leaf tensor from flat data and an explicit shape: a fresh
    /// contiguous base with derived strides, and nothing recorded.
    pub fn new(data: Vec<i64>, shape: Vec<usize>) -> (t: Self)
        requires
            data@.len() == numel(shape@),
            strides_fit(shape@),
        ensures
            t.base.wf(),
            t.base.data@ == data@,
            t.base.shape@ == shape@,
            t.base.offset == 0,
            t.base.elems() == data@,
            t.grad.spec_grad_fn() is None,
    {
        Tensor { base: BaseTensor::new(data, shape), grad: G::leaf(), quant: NoExtraInfo }
    }
}

impl<G: AutoGrad, Q: Copy> Tensor<G, Q> {
    /// Elementwise addition.  The result is a fresh contiguous tensor; when
    /// the capability `G` tracks gradients, it carries a record of this
    /// addition and of both inputs, otherwise it carries nothing.
    pub fn add(&self, other: &Self) -> (r: Self)
        requires
            self.base.wf(),
            other.base.wf(),
            self.base.shape@ == other.base.shape@,
            sums_fit(self.base.elems(), other.base.elems()),
        ensures
            r.base.wf(),
            r.base.shape@ == self.base.shape@,
            r.base.offset == 0,
            r.base.elems() == elemwise_sum(self.base.elems(), other.base.elems()),
            G::spec_tracking() ==> (r.grad.spec_grad_fn() matches Some(f) && f.records(
                TensorOp::Add,
                self.base,
                other.base,
            )),
            !G::spec_tracking() ==> r.grad.spec_grad_fn() is None,
            r.quant == self.quant,
    {
        let base = self.base.add(&other.base);
        let grad = G::record_binary(TensorOp::Add, &self.base, &other.base);
        Tensor { base, grad, quant: self.quant }
    }

    /// Elementwise subtraction.  The result is a fresh contiguous tensor;
    /// when the capability `G` tracks gradients, it carries a record of this
    /// subtraction and of both inputs, otherwise it carries nothing.
    pub fn sub(&self, other: &Self) -> (r: Self)
        requires
            self.base.wf(),
            other.base.wf(),
            self.base.shape@ == other.base.shape@,
            diffs_fit(self.base.elems(), other.base.elems()),
        ensures
            r.base.wf(),
            r.base.shape@ == self.base.shape@,
            r.base.offset == 0,
            r.base.elems() == elemwise_diff(self.base.elems(), other.base.elems()),
            G::spec_tracking() ==> (r.grad.spec_grad_fn() matches Some(f) && f.records(
                TensorOp::Sub,
                self.base,
                other.base,
            )),
            !G::spec_tracking() ==> r.grad.spec_grad_fn() is None,
            r.quant == self.quant,
    {
        let base = self.base.sub(&other.base);
        let grad = G::record_binary(TensorOp::Sub, &self.base, &other.base);
        Tensor { base, grad, quant: self.quant }
    }

    /// Recoverable variant of [`Tensor::add`]: reports a shape mismatch as
    /// an error before any element is computed, instead of requiring equal
    /// shapes from the caller.
    pub fn checked_add(&self, other: &Self) -> (r: Result<Self, TensorError>)
        requires
            self.base.wf(),
            other.base.wf(),
            self.base.shape@ == other.base.shape@ ==> sums_fit(
                self.base.elems(),
                other.base.elems(),
            ),
        ensures
            self.base.shape@ == other.base.shape@ ==> (r matches Ok(t) && t.base.wf()
                && t.base.shape@ == self.base.shape@ && t.base.offset == 0 && t.base.elems()
                == elemwise_sum(self.base.elems(), other.base.elems()) && (G::spec_tracking() ==> (
            t.grad.spec_grad_fn() matches Some(f) && f.records(
                TensorOp::Add,
                self.base,
                other.base,
            ))) && (!G::spec_tracking() ==> t.grad.spec_grad_fn() is None)),
            self.base.shape@ != other.base.shape@ ==> (r matches Err(e) && e
                == TensorError::ShapeMismatch),
    {
        if shapes_equal(&self.base.shape, &other.base.shape) {
            Ok(self.add(other))
        } else {
            Err(TensorError::ShapeMismatch)
        }
    }

    /// Recoverable variant of [`Tensor::sub`]: reports a shape mismatch as
    /// an error before any element is computed.
    pub fn checked_sub(&self, other: &Self) -> (r: Result<Self, TensorError>)
        requires
            self.base.wf(),
            other.base.wf(),
            self.base.shape@ == other.base.shape@ ==> diffs_fit(
                self.base.elems(),
                other.base.elems(),
            ),
        ensures
            self.base.shape@ == other.base.shape@ ==> (r matches Ok(t) && t.base.wf()
                && t.base.shape@ == self.base.shape@ && t.base.offset == 0 && t.base.elems()
                == elemwise_diff(self.base.elems(), other.base.elems()) && (G::spec_tracking() ==> (
            t.grad.spec_grad_fn() matches Some(f) && f.records(
                TensorOp::Sub,
                self.base,
                other.base,
            ))) && (!G::spec_tracking() ==> t.grad.spec_grad_fn() is None)),
            self.base.shape@ != other.base.shape@ ==> (r matches Err(e) && e
                == TensorError::ShapeMismatch),
    {
        if shapes_equal(&self.base.shape, &other.base.shape) {
            Ok(self.sub(other))
        } else {
            Err(TensorError::ShapeMismatch)
        }
    }
}

} // verus!
