use tensor_core::tensor::checked_shape_product;
use tensor_core::CoreError;
use tensor_core::Tensor;

#[test]
fn tensor_new_checks_element_count() {
    assert!(Tensor::new(vec![2, 3], vec![0u32; 6]).is_ok());
    let r = Tensor::new(vec![2, 3], vec![0u32; 5]);
    assert!(matches!(r, Err(CoreError::ShapeMismatch)));
}

#[test]
fn tensor_zero_dimension_holds_no_elements() {
    let t = Tensor::<f32>::new(vec![2, 0, 3], Vec::new()).unwrap();
    assert_eq!(t.shape(), &vec![2, 0, 3]);
    assert_eq!(t.data().len(), 0);
}

#[test]
fn tensor_empty_shape_is_a_scalar() {
    let t = Tensor::new(Vec::new(), vec![5u8]).unwrap();
    assert_eq!(t.shape().len(), 0);
    assert_eq!(t.data(), &vec![5u8]);
}

#[test]
fn tensor_into_parts_returns_what_was_given() {
    let t = Tensor::new(vec![1, 2], vec![4.5f32, -4.5]).unwrap();
    let (shape, data) = t.into_parts();
    assert_eq!(shape, vec![1, 2]);
    assert_eq!(data, vec![4.5f32, -4.5]);
}

#[test]
fn shape_product_handles_overflow_and_zero() {
    assert_eq!(checked_shape_product(&vec![2, 3, 4]), Some(24));
    assert_eq!(checked_shape_product(&Vec::new()), Some(1));
    assert_eq!(checked_shape_product(&vec![usize::MAX, usize::MAX]), None);
    assert_eq!(checked_shape_product(&vec![usize::MAX, usize::MAX, 0]), Some(0));
}

#[test]
fn tensor_new_rejects_unaddressable_shape() {
    let r = Tensor::new(vec![usize::MAX, 2], Vec::<u8>::new());
    assert!(matches!(r, Err(CoreError::ShapeMismatch)));
}
