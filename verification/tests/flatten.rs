use tensor_core::CoreError;
use tensor_core::FlattenCPULayer;
use tensor_core::FlattenLayer;
use tensor_core::Tensor;

#[test]
fn flatten_four_batch_scenario() {
    let mut layer = FlattenCPULayer::new(FlattenLayer {}, vec![4, 3, 8, 8]);
    let n = 4 * 3 * 8 * 8;
    let values: Vec<f32> = (0..n).map(|i| i as f32).collect();
    let input = Tensor::new(vec![4, 3, 8, 8], values.clone()).unwrap();
    let out = layer.forward_propagate(input).unwrap();
    assert_eq!(out.shape(), &vec![4, 192]);
    assert_eq!(out.data(), &values);
    let grad = Tensor::new(vec![4, 192], vec![1.0f32; n]).unwrap();
    let back = layer.backward_propagate(grad, 0.1).unwrap();
    assert_eq!(back.shape(), &vec![4, 3, 8, 8]);
    assert!(back.data().iter().all(|&v| v == 1.0));
}

#[test]
fn backward_before_forward_is_stale() {
    let mut layer = FlattenCPULayer::new(FlattenLayer {}, vec![4, 3, 8, 8]);
    let grad = Tensor::new(vec![4, 192], vec![0.0f32; 768]).unwrap();
    let r = layer.backward_propagate(grad, 0.5);
    assert!(matches!(r, Err(CoreError::StaleState)));
}

#[test]
fn backward_alternates_strictly_with_forward() {
    let mut layer = FlattenCPULayer::new(FlattenLayer {}, vec![2, 3]);
    let input = Tensor::new(vec![2, 3], vec![0.0f32; 6]).unwrap();
    let out = layer.forward_propagate(input).unwrap();
    assert!(layer.backward_propagate(out, 0.0).is_ok());
    let grad = Tensor::new(vec![2, 3], vec![0.0f32; 6]).unwrap();
    let r = layer.backward_propagate(grad, 0.0);
    assert!(matches!(r, Err(CoreError::StaleState)));
}

#[test]
fn reset_zero_batch_is_invalid() {
    let mut layer = FlattenCPULayer::new(FlattenLayer {}, vec![4, 3, 8, 8]);
    assert!(matches!(layer.reset(0), Err(CoreError::InvalidBatchSize)));
    assert!(layer.reset(2).is_ok());
}

#[test]
fn reset_then_mismatched_batch_is_shape_mismatch() {
    let mut layer = FlattenCPULayer::new(FlattenLayer {}, vec![4, 3, 8, 8]);
    layer.reset(2).unwrap();
    let stale_batch = Tensor::new(vec![4, 3, 8, 8], vec![0.0f32; 768]).unwrap();
    let r = layer.forward_propagate(stale_batch);
    assert!(matches!(r, Err(CoreError::ShapeMismatch)));
    let fresh_batch = Tensor::new(vec![2, 3, 8, 8], vec![0.0f32; 384]).unwrap();
    let out = layer.forward_propagate(fresh_batch).unwrap();
    assert_eq!(out.shape(), &vec![2, 192]);
}

#[test]
fn forward_wrong_trailing_is_shape_mismatch() {
    let mut layer = FlattenCPULayer::new(FlattenLayer {}, vec![4, 3, 8, 8]);
    let input = Tensor::new(vec![4, 3, 8, 7], vec![0.0f32; 672]).unwrap();
    let r = layer.forward_propagate(input);
    assert!(matches!(r, Err(CoreError::ShapeMismatch)));
}

#[test]
fn forward_wrong_rank_is_shape_mismatch() {
    let mut layer = FlattenCPULayer::new(FlattenLayer {}, vec![4, 3, 8, 8]);
    let input = Tensor::new(vec![4, 3, 64], vec![0.0f32; 768]).unwrap();
    let r = layer.forward_propagate(input);
    assert!(matches!(r, Err(CoreError::ShapeMismatch)));
}

#[test]
fn flatten_value_round_trip_is_bit_for_bit() {
    let values: Vec<f32> = vec![0.1, -0.0, f32::NAN, 1.5e-30, -3.25, f32::INFINITY];
    let bits: Vec<u32> = values.iter().map(|v| v.to_bits()).collect();
    let mut layer = FlattenCPULayer::new(FlattenLayer {}, vec![2, 3]);
    let input = Tensor::new(vec![2, 3], values).unwrap();
    let out = layer.forward_propagate(input).unwrap();
    let out_bits: Vec<u32> = out.data().iter().map(|v| v.to_bits()).collect();
    assert_eq!(out_bits, bits);
    let back = layer.backward_propagate(out, 0.0).unwrap();
    assert_eq!(back.shape(), &vec![2, 3]);
    let back_bits: Vec<u32> = back.data().iter().map(|v| v.to_bits()).collect();
    assert_eq!(back_bits, bits);
}

#[test]
fn flatten_works_on_integer_elements_too() {
    let mut layer = FlattenCPULayer::new(FlattenLayer {}, vec![1, 2, 2]);
    let input = Tensor::new(vec![1, 2, 2], vec![9u64, 8, 7, 6]).unwrap();
    let out = layer.forward_propagate(input).unwrap();
    assert_eq!(out.shape(), &vec![1, 4]);
    assert_eq!(out.data(), &vec![9u64, 8, 7, 6]);
}
