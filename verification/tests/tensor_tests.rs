use std::rc::Rc;
use tensor::autograd::{AutoGrad, GradFunction, NoExtraInfo};
use tensor::base::{BaseTensor, TensorError};
use tensor::tensor::{InferenceTensor, Tensor, TrainingTensor};

fn inference(data: Vec<i64>, shape: Vec<usize>) -> InferenceTensor {
    Tensor {
        base: BaseTensor {
            data: Rc::new(data),
            shape,
            strides: vec![2, 1],
            offset: 0,
        },
        grad: NoExtraInfo,
        quant: NoExtraInfo,
    }
}

#[test]
fn add() {
    let left = inference(vec![1, 2, 3, 4], vec![2, 2]);
    let right = inference(vec![10, 20, 30, 40], vec![2, 2]);

    let result = left.add(&right);

    assert_eq!(*result.base.data, vec![11, 22, 33, 44]);
}

#[test]
fn sub() {
    let left = inference(vec![10, 20, 30, 40], vec![2, 2]);
    let right = inference(vec![1, 2, 3, 4], vec![2, 2]);

    let result = left.sub(&right);

    assert_eq!(*result.base.data, vec![9, 18, 27, 36]);
}

#[test]
fn sub_with_minus_result() {
    let left = inference(vec![1, 2, 3, 4], vec![2, 2]);
    let right = inference(vec![10, 20, 30, 40], vec![2, 2]);

    let result = left.sub(&right);

    assert_eq!(*result.base.data, vec![-9, -18, -27, -36]);
}

#[test]
fn add_keeps_shape_and_strides() {
    let a = InferenceTensor::new(vec![1, 2, 3, 4], vec![2, 2]);
    let b = InferenceTensor::new(vec![10, 20, 30, 40], vec![2, 2]);

    let c = a.add(&b);

    assert_eq!(c.base.shape, vec![2, 2]);
    assert_eq!(c.base.strides, vec![2, 1]);
    assert_eq!(c.base.offset, 0);
}

#[test]
fn add_commutes() {
    let a = InferenceTensor::new(vec![5, -3, 0, 9], vec![4]);
    let b = InferenceTensor::new(vec![-1, 7, 2, -9], vec![4]);

    let ab = a.add(&b);
    let ba = b.add(&a);

    assert_eq!(*ab.base.data, *ba.base.data);
    assert_eq!(ab.base.shape, ba.base.shape);
}

#[test]
fn checked_add_shape_mismatch() {
    let a = InferenceTensor::new(vec![1, 2, 3, 4], vec![2, 2]);
    let b = InferenceTensor::new(vec![1, 2], vec![2]);

    let r = a.checked_add(&b);

    assert_eq!(r.err(), Some(TensorError::ShapeMismatch));
}

#[test]
fn checked_sub_shape_mismatch() {
    let a = InferenceTensor::new(vec![1, 2, 3, 4], vec![2, 2]);
    let b = InferenceTensor::new(vec![1, 2, 3, 4], vec![4]);

    let r = a.checked_sub(&b);

    assert_eq!(r.err(), Some(TensorError::ShapeMismatch));
}

#[test]
fn checked_add_matching_shapes() {
    let a = InferenceTensor::new(vec![1, 2], vec![2]);
    let b = InferenceTensor::new(vec![3, 4], vec![2]);

    let r = a.checked_add(&b).unwrap();

    assert_eq!(*r.base.data, vec![4, 6]);
}

#[test]
fn untracked_tensor_has_no_grad_fn() {
    let a = InferenceTensor::new(vec![1, 2, 3, 4], vec![2, 2]);
    let b = InferenceTensor::new(vec![10, 20, 30, 40], vec![2, 2]);

    assert!(a.grad.get_grad_fn().is_none());

    let c = a.add(&b);
    assert!(c.grad.get_grad_fn().is_none());

    let d = c.sub(&b);
    assert!(d.grad.get_grad_fn().is_none());
}

#[test]
fn tracked_leaf_has_no_grad_fn() {
    let a = TrainingTensor::new(vec![1, 2, 3, 4], vec![2, 2]);

    assert!(a.grad.get_grad_fn().is_none());
}

#[test]
fn tracked_add_records_identity_backward() {
    let a = TrainingTensor::new(vec![1, 2, 3, 4], vec![2, 2]);
    let b = TrainingTensor::new(vec![10, 20, 30, 40], vec![2, 2]);

    let c = a.add(&b);
    let grad_fn = c.grad.get_grad_fn().expect("addition must record a backward function");

    let ones = BaseTensor::new(vec![1, 1, 1, 1], vec![2, 2]);
    let grads = grad_fn.backward(&ones);

    assert_eq!(grads.len(), 2);
    assert_eq!(*grads[0].data, vec![1, 1, 1, 1]);
    assert_eq!(*grads[1].data, vec![1, 1, 1, 1]);
}

#[test]
fn tracked_sub_records_signed_backward() {
    let a = TrainingTensor::new(vec![1, 2, 3, 4], vec![2, 2]);
    let b = TrainingTensor::new(vec![10, 20, 30, 40], vec![2, 2]);

    let c = a.sub(&b);
    let grad_fn = c.grad.get_grad_fn().expect("subtraction must record a backward function");

    let ones = BaseTensor::new(vec![1, 1, 1, 1], vec![2, 2]);
    let grads = grad_fn.backward(&ones);

    assert_eq!(grads.len(), 2);
    assert_eq!(*grads[0].data, vec![1, 1, 1, 1]);
    assert_eq!(*grads[1].data, vec![-1, -1, -1, -1]);
}

#[test]
fn tracked_record_aliases_inputs() {
    let a = TrainingTensor::new(vec![1, 2], vec![2]);
    let b = TrainingTensor::new(vec![3, 4], vec![2]);

    let c = a.add(&b);
    let grad_fn = c.grad.get_grad_fn().unwrap();
    // The record aliases the inputs' storage instead of copying it.
    match grad_fn.as_ref() {
        tensor::autograd::GradFn::Add(f) => {
            assert!(Rc::ptr_eq(&f.lhs.data, &a.base.data));
            assert!(Rc::ptr_eq(&f.rhs.data, &b.base.data));
        }
        tensor::autograd::GradFn::Sub(_) => panic!("addition recorded as subtraction"),
    }
}

#[test]
fn tracking_is_a_property_of_the_type() {
    assert!(!<NoExtraInfo as AutoGrad>::tracking());
    assert!(<tensor::autograd::AutogradInfo as AutoGrad>::tracking());
}
