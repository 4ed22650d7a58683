use std::rc::Rc;
use tensor::base::{BaseTensor, TensorError};

#[test]
fn new_derives_row_major_strides() {
    let t = BaseTensor::new(vec![1, 2, 3, 4, 5, 6], vec![2, 3]);

    assert_eq!(t.shape, vec![2, 3]);
    assert_eq!(t.strides, vec![3, 1]);
    assert_eq!(t.offset, 0);
    assert_eq!(*t.data, vec![1, 2, 3, 4, 5, 6]);
}

#[test]
fn element_count_matches_shape() {
    let t = BaseTensor::new(vec![1, 2, 3, 4, 5, 6], vec![2, 3]);
    assert_eq!(t.element_count(), 6);

    let scalar = BaseTensor::new(vec![7], vec![]);
    assert_eq!(scalar.element_count(), 1);

    let empty = BaseTensor::new(vec![], vec![0, 3]);
    assert_eq!(empty.element_count(), 0);
}

#[test]
fn get_reads_by_multi_index() {
    let t = BaseTensor::new(vec![1, 2, 3, 4, 5, 6], vec![2, 3]);

    assert_eq!(t.get(&vec![0, 0]), Ok(1));
    assert_eq!(t.get(&vec![0, 2]), Ok(3));
    assert_eq!(t.get(&vec![1, 0]), Ok(4));
    assert_eq!(t.get(&vec![1, 2]), Ok(6));
}

#[test]
fn get_rejects_bad_indices() {
    let t = BaseTensor::new(vec![1, 2, 3, 4, 5, 6], vec![2, 3]);

    assert_eq!(t.get(&vec![2, 0]), Err(TensorError::OutOfBounds));
    assert_eq!(t.get(&vec![0, 3]), Err(TensorError::OutOfBounds));
    assert_eq!(t.get(&vec![0]), Err(TensorError::OutOfBounds));
    assert_eq!(t.get(&vec![0, 0, 0]), Err(TensorError::OutOfBounds));
}

#[test]
fn get_checks_storage_bounds_of_raw_views() {
    // A view built by hand whose metadata points past the buffer.
    let t = BaseTensor {
        data: Rc::new(vec![1, 2]),
        shape: vec![2, 2],
        strides: vec![2, 1],
        offset: 0,
    };

    assert_eq!(t.get(&vec![0, 0]), Ok(1));
    assert_eq!(t.get(&vec![1, 1]), Err(TensorError::OutOfBounds));
}

#[test]
fn scalar_tensors_add() {
    let a = BaseTensor::new(vec![7], vec![]);
    let b = BaseTensor::new(vec![35], vec![]);

    let c = a.add(&b);

    assert_eq!(*c.data, vec![42]);
    assert_eq!(c.shape, Vec::<usize>::new());
    assert_eq!(a.get(&vec![]), Ok(7));
}

#[test]
fn empty_tensors_add() {
    let a = BaseTensor::new(vec![], vec![0, 3]);
    let b = BaseTensor::new(vec![], vec![0, 3]);

    let c = a.add(&b);

    assert_eq!(*c.data, Vec::<i64>::new());
    assert_eq!(c.shape, vec![0, 3]);
}

#[test]
fn neg_flips_signs() {
    let t = BaseTensor::new(vec![1, -2, 0, 5], vec![4]);

    let n = t.neg();

    assert_eq!(*n.data, vec![-1, 2, 0, -5]);
}

#[test]
fn base_checked_ops() {
    let a = BaseTensor::new(vec![1, 2], vec![2]);
    let b = BaseTensor::new(vec![10, 20], vec![2]);
    let c = BaseTensor::new(vec![1, 2, 3], vec![3]);

    assert_eq!(*a.checked_add(&b).unwrap().data, vec![11, 22]);
    assert_eq!(*b.checked_sub(&a).unwrap().data, vec![9, 18]);
    assert_eq!(a.checked_add(&c).err(), Some(TensorError::ShapeMismatch));
    assert_eq!(a.checked_sub(&c).err(), Some(TensorError::ShapeMismatch));
}

#[test]
fn clone_shares_storage() {
    let a = BaseTensor::new(vec![1, 2, 3, 4], vec![2, 2]);
    let b = a.clone();

    assert!(Rc::ptr_eq(&a.data, &b.data));
    assert_eq!(b.shape, vec![2, 2]);
    assert_eq!(b.strides, vec![2, 1]);
    assert_eq!(b.offset, 0);
}

#[test]
fn results_are_fresh_storage() {
    let a = BaseTensor::new(vec![1, 2], vec![2]);
    let b = BaseTensor::new(vec![3, 4], vec![2]);

    let c = a.add(&b);

    assert!(!Rc::ptr_eq(&c.data, &a.data));
    assert!(!Rc::ptr_eq(&c.data, &b.data));
    assert_eq!(*a.data, vec![1, 2]);
    assert_eq!(*b.data, vec![3, 4]);
}
