//! Gradient-tracking capabilities and recorded backward functions.
//!
//! A tensor carries an [`AutoGrad`] capability chosen at compile time:
//! [`NoExtraInfo`] never records anything and costs nothing, while
//! [`AutogradInfo`] records, for a tensor produced by an operation, a shared
//! [`GradFn`] describing how to push gradients back to the operation's
//! inputs.  [`GradFunction`] is the open contract such a backward record
//! satisfies; new operations are new implementations of it.

use crate::base::{elemwise_neg, negs_fit, BaseTensor};
use std::rc::Rc;
use vstd::prelude::*;

verus! {

/// The elementwise operation that produced a tensor.
#[derive(Clone, Copy, Debug, PartialEq, Eq, Structural)]
pub enum TensorOp {
    Add,
    Sub,
}

/// Contract of a recorded operation's backward computation: given the
/// gradient flowing into the operation's output, produce the gradients for
/// each recorded input, ordered to match the inputs.
pub trait GradFunction: Sized {
    /// The recorded inputs are valid and mutually compatible.
    spec fn wf(&self) -> bool;

    /// Shape of the operation's output.
    spec fn out_shape(&self) -> Seq<usize>;

    /// Number of inputs the operation recorded.
    spec fn num_inputs(&self) -> nat;

    /// Shape of recorded input `k`.
    spec fn input_shape(&self, k: int) -> Seq<usize>;

    /// Condition on the incoming gradient under which the backward
    /// computation is defined (for subtraction: no negation may wrap).
    spec fn grad_ok(&self, g: Seq<i64>) -> bool;

    /// The gradient owed to recorded input `k`, given the gradient `g` of
    /// the operation's output.
    spec fn input_grad(&self, g: Seq<i64>, k: int) -> Seq<i64>;

    /// Computes the input gradients from the output gradient.
    fn backward(&self, grad_output: &BaseTensor) -> (grads: Vec<BaseTensor>)
        requires
            self.wf(),
            grad_output.wf(),
            grad_output.shape@ == self.out_shape(),
            self.grad_ok(grad_output.elems()),
        ensures
            grads@.len() == self.num_inputs(),
            forall|k: int| 0 <= k < grads@.len() ==> (#[trigger] grads@[k]).wf(),
            forall|k: int|
                0 <= k < grads@.len() ==> (#[trigger] grads@[k]).shape@ == self.input_shape(k),
            forall|k: int|
                0 <= k < grads@.len() ==> (#[trigger] grads@[k]).elems() == self.input_grad(
                    grad_output.elems(),
                    k,
                ),
    ;
}

/// Backward record of an addition: both inputs receive the output gradient
/// unchanged, because the derivative of a sum with respect to each summand
/// is the identity.
pub struct AddBackward {
    /// Left input of the recorded addition.
    pub lhs: BaseTensor,
    /// Right input of the recorded addition.
    pub rhs: BaseTensor,
}

impl GradFunction for AddBackward {
    open spec fn wf(&self) -> bool {
        &&& self.lhs.wf()
        &&& self.rhs.wf()
        &&& self.lhs.shape@ == self.rhs.shape@
    }

    open spec fn out_shape(&self) -> Seq<usize> {
        self.lhs.shape@
    }

    open spec fn num_inputs(&self) -> nat {
        2
    }

    open spec fn input_shape(&self, k: int) -> Seq<usize> {
        if k == 0 {
            self.lhs.shape@
        } else {
            self.rhs.shape@
        }
    }

    open spec fn grad_ok(&self, g: Seq<i64>) -> bool {
        true
    }

    open spec fn input_grad(&self, g: Seq<i64>, k: int) -> Seq<i64> {
        g
    }

    fn backward(&self, grad_output: &BaseTensor) -> (grads: Vec<BaseTensor>) {
        let mut grads: Vec<BaseTensor> = Vec::new();
        grads.push(grad_output.clone());
        grads.push(grad_output.clone());
        proof {
            assert(grads@[0].elems() =~= grad_output.elems());
            assert(grads@[1].elems() =~= grad_output.elems());
        }
        grads
    }
}

/// Backward record of a subtraction: the left input receives the output
/// gradient unchanged, the right input its negation.
pub struct SubBackward {
    /// Left input (minuend) of the recorded subtraction.
    pub lhs: BaseTensor,
    /// Right input (subtrahend) of the recorded subtraction.
    pub rhs: BaseTensor,
}

impl GradFunction for SubBackward {
    open spec fn wf(&self) -> bool {
        &&& self.lhs.wf()
        &&& self.rhs.wf()
        &&& self.lhs.shape@ == self.rhs.shape@
    }

    open spec fn out_shape(&self) -> Seq<usize> {
        self.lhs.shape@
    }

    open spec fn num_inputs(&self) -> nat {
        2
    }

    open spec fn input_shape(&self, k: int) -> Seq<usize> {
        if k == 0 {
            self.lhs.shape@
        } else {
            self.rhs.shape@
        }
    }

    open spec fn grad_ok(&self, g: Seq<i64>) -> bool {
        negs_fit(g)
    }

    open spec fn input_grad(&self, g: Seq<i64>, k: int) -> Seq<i64> {
        if k == 0 {
            g
        } else {
            elemwise_neg(g)
        }
    }

    fn backward(&self, grad_output: &BaseTensor) -> (grads: Vec<BaseTensor>) {
        let mut grads: Vec<BaseTensor> = Vec::new();
        grads.push(grad_output.clone());
        grads.push(grad_output.neg());
        proof {
            assert(grads@[0].elems() =~= grad_output.elems());
        }
        grads
    }
}

/// The backward records produced by this core's own operators.
///
/// [`GradFunction`] stays open for new operations; this enum is only the
/// concrete storage for the operators shipped here.
pub enum GradFn {
    Add(AddBackward),
    Sub(SubBackward),
}

impl GradFn {
    /// `self` records the operation `op` applied to `lhs` and `rhs`.
    pub open spec fn records(self, op: TensorOp, lhs: BaseTensor, rhs: BaseTensor) -> bool {
        match self {
            GradFn::Add(f) => op == TensorOp::Add && f.lhs.same_view(lhs) && f.rhs.same_view(rhs),
            GradFn::Sub(f) => op == TensorOp::Sub && f.lhs.same_view(lhs) && f.rhs.same_view(rhs),
        }
    }
}

impl GradFunction for GradFn {
    open spec fn wf(&self) -> bool {
        match self {
            GradFn::Add(f) => f.wf(),
            GradFn::Sub(f) => f.wf(),
        }
    }

    open spec fn out_shape(&self) -> Seq<usize> {
        match self {
            GradFn::Add(f) => f.out_shape(),
            GradFn::Sub(f) => f.out_shape(),
        }
    }

    open spec fn num_inputs(&self) -> nat {
        match self {
            GradFn::Add(f) => f.num_inputs(),
            GradFn::Sub(f) => f.num_inputs(),
        }
    }

    open spec fn input_shape(&self, k: int) -> Seq<usize> {
        match self {
            GradFn::Add(f) => f.input_shape(k),
            GradFn::Sub(f) => f.input_shape(k),
        }
    }

    open spec fn grad_ok(&self, g: Seq<i64>) -> bool {
        match self {
            GradFn::Add(f) => f.grad_ok(g),
            GradFn::Sub(f) => f.grad_ok(g),
        }
    }

    open spec fn input_grad(&self, g: Seq<i64>, k: int) -> Seq<i64> {
        match self {
            GradFn::Add(f) => f.input_grad(g, k),
            GradFn::Sub(f) => f.input_grad(g, k),
        }
    }

    fn backward(&self, grad_output: &BaseTensor) -> (grads: Vec<BaseTensor>) {
        match self {
            GradFn::Add(f) => f.backward(grad_output),
            GradFn::Sub(f) => f.backward(grad_output),
        }
    }
}

/// Compile-time capability of a tensor: whether operations record backward
/// functions, and access to the recorded one, if any.
pub trait AutoGrad: Sized {
    /// Whether this capability tracks gradients; a property of the type.
    spec fn spec_tracking() -> bool;

    /// The recorded backward function of this capability value.
    spec fn spec_grad_fn(&self) -> Option<GradFn>;

    /// Compile-time answer: is gradient tracking active for this type?
    fn tracking() -> (b: bool)
        ensures
            b == Self::spec_tracking(),
    ;

    /// The recorded operation, or `None` for a leaf or an untracked tensor.
    fn get_grad_fn(&self) -> (r: Option<&Rc<GradFn>>)
        ensures
            (match r {
                Some(f) => self.spec_grad_fn() == Some(**f),
                None => self.spec_grad_fn() is None,
            }),
    ;

    /// Capability of a user-constructed (leaf) tensor: nothing recorded.
    fn leaf() -> (g: Self)
        ensures
            g.spec_grad_fn() is None,
    ;

    /// Capability of the result of a binary operation: records the operation
    /// and its two inputs when tracking is active, and nothing otherwise.
    fn record_binary(op: TensorOp, lhs: &BaseTensor, rhs: &BaseTensor) -> (g: Self)
        ensures
            Self::spec_tracking() ==> (g.spec_grad_fn() matches Some(f) && f.records(
                op,
                *lhs,
                *rhs,
            )),
            !Self::spec_tracking() ==> g.spec_grad_fn() is None,
    ;
}

/// Capability of tensors that do not track gradients: a zero-sized marker,
/// so the untracked code path carries no bookkeeping at all.
#[derive(Clone, Copy, Debug)]
pub struct NoExtraInfo;

impl AutoGrad for NoExtraInfo {
    open spec fn spec_tracking() -> bool {
        false
    }

    open spec fn spec_grad_fn(&self) -> Option<GradFn> {
        None
    }

    fn tracking() -> (b: bool) {
        false
    }

    fn get_grad_fn(&self) -> (r: Option<&Rc<GradFn>>) {
        None
    }

    fn leaf() -> (g: Self) {
        NoExtraInfo
    }

    fn record_binary(op: TensorOp, lhs: &BaseTensor, rhs: &BaseTensor) -> (g: Self) {
        NoExtraInfo
    }
}

/// Capability of gradient-tracking tensors: holds the shared backward record
/// of the operation that produced the tensor, or `None` for a leaf.
pub struct AutogradInfo {
    /// The recorded operation, shared with any other tensor that needs it.
    pub grad_fn: Option<Rc<GradFn>>,
}

impl AutoGrad for AutogradInfo {
    open spec fn spec_tracking() -> bool {
        true
    }

    open spec fn spec_grad_fn(&self) -> Option<GradFn> {
        match self.grad_fn {
            Some(f) => Some(*f),
            None => None,
        }
    }

    fn tracking() -> (b: bool) {
        true
    }

    fn get_grad_fn(&self) -> (r: Option<&Rc<GradFn>>) {
        match &self.grad_fn {
            Some(f) => Some(f),
            None => None,
        }
    }

    fn leaf() -> (g: Self) {
        AutogradInfo { grad_fn: None }
    }

    fn record_binary(op: TensorOp, lhs: &BaseTensor, rhs: &BaseTensor) -> (g: Self) {
        let record = match op {
            TensorOp::Add => GradFn::Add(AddBackward { lhs: lhs.clone(), rhs: rhs.clone() }),
            TensorOp::Sub => GradFn::Sub(SubBackward { lhs: lhs.clone(), rhs: rhs.clone() }),
        };
        AutogradInfo { grad_fn: Some(Rc::new(record)) }
    }
}

/// A capability of the non-tracking kind never has a recorded operation:
/// its gradient accessor yields `None` however many operations produced the
/// tensor that carries it.
pub proof fn lemma_untracked_never_records(g: NoExtraInfo)
    ensures
        g.spec_grad_fn() is None,
{
}

/// A record of an operation applied to two valid, equally shaped inputs is a
/// valid backward function for an output of that shape, and its gradients
/// are the mathematically correct derivatives: the output gradient itself
/// for both inputs of an addition, and with the sign flipped for the right
/// input of a subtraction.
pub proof fn lemma_recorded_backward_correct(
    f: GradFn,
    op: TensorOp,
    lhs: BaseTensor,
    rhs: BaseTensor,
    g: Seq<i64>,
)
    requires
        f.records(op, lhs, rhs),
        lhs.wf(),
        rhs.wf(),
        lhs.shape@ == rhs.shape@,
    ensures
        f.wf(),
        f.out_shape() == lhs.shape@,
        f.num_inputs() == 2,
        f.input_shape(0) == lhs.shape@,
        f.input_shape(1) == rhs.shape@,
        f.input_grad(g, 0) == g,
        op == TensorOp::Add ==> f.input_grad(g, 1) == g,
        op == TensorOp::Sub ==> f.input_grad(g, 1) == elemwise_neg(g),
{
}

/// Backward of an addition is the identity on both inputs.
pub proof fn lemma_add_backward_identity(f: AddBackward, g: Seq<i64>)
    ensures
        f.input_grad(g, 0) == g,
        f.input_grad(g, 1) == g,
{
}

/// Backward of a subtraction is the identity on the left input and the
/// elementwise negation on the right input.
pub proof fn lemma_sub_backward_signs(f: SubBackward, g: Seq<i64>)
    ensures
        f.input_grad(g, 0) == g,
        f.input_grad(g, 1) == elemwise_neg(g),
{
}

} // verus!
