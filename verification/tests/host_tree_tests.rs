use candle_core::Device;
use candle_core::Tensor;
use tensor_bridge::axis::resolve_axis;
use tensor_bridge::dtype::DTag;
use tensor_bridge::error::TensorError;
use tensor_bridge::host::to_host_tree;
use tensor_bridge::host::HostScalar;
use tensor_bridge::host::HostTree;
use tensor_bridge::tensor::TensorHandle;

fn handle(t: Tensor) -> TensorHandle {
    TensorHandle::from_tensor(t).expect("element type should be in the supported set")
}

#[test]
fn scalar_tensor_yields_a_scalar() {
    let t = Tensor::new(7u32, &Device::Cpu).unwrap();
    let h = handle(t);
    assert_eq!(h.rank(), 0);
    assert_eq!(h.device(), Some(tensor_bridge::device::DeviceTag::Cpu));
    assert_eq!(to_host_tree(&h), Ok(HostTree::Scalar(HostScalar::U32(7))));
}

#[test]
fn rank1_tensor_yields_a_flat_sequence() {
    let t = Tensor::new(&[1i64, -2, 3], &Device::Cpu).unwrap();
    let h = handle(t);
    assert_eq!(h.dtype(), DTag::I64);
    assert_eq!(
        to_host_tree(&h),
        Ok(HostTree::Rank1(vec![
            HostScalar::I64(1),
            HostScalar::I64(-2),
            HostScalar::I64(3),
        ]))
    );
}

#[test]
fn rank2_f32_tensor_yields_rows_of_unchanged_values() {
    let t = Tensor::new(&[[1.0f32, 2.0, 3.0], [4.0, 5.0, 6.0]], &Device::Cpu).unwrap();
    let h = handle(t);
    assert_eq!(h.shape().as_slice(), &[2, 3]);
    let expected = HostTree::Rank2(vec![
        vec![
            HostScalar::F32Bits(1.0f32.to_bits()),
            HostScalar::F32Bits(2.0f32.to_bits()),
            HostScalar::F32Bits(3.0f32.to_bits()),
        ],
        vec![
            HostScalar::F32Bits(4.0f32.to_bits()),
            HostScalar::F32Bits(5.0f32.to_bits()),
            HostScalar::F32Bits(6.0f32.to_bits()),
        ],
    ]);
    assert_eq!(to_host_tree(&h), Ok(expected));
}

#[test]
fn rank2_negative_axis_resolves_and_out_of_window_fails() {
    let t = Tensor::new(&[[1.0f32, 2.0, 3.0], [4.0, 5.0, 6.0]], &Device::Cpu).unwrap();
    let h = handle(t);
    assert_eq!(resolve_axis(h.rank(), -1), Ok(1));
    assert_eq!(
        resolve_axis(h.rank(), -3),
        Err(TensorError::OutOfRange { requested: -3, bound: 2 })
    );
}

#[test]
fn rank3_tensor_yields_three_levels() {
    let t = Tensor::new(
        &[[[1u8, 2], [3, 4]], [[5, 6], [7, 8]], [[9, 10], [11, 12]]],
        &Device::Cpu,
    )
    .unwrap();
    let h = handle(t);
    assert_eq!(h.shape().as_slice(), &[3, 2, 2]);
    let got = to_host_tree(&h).unwrap();
    match got {
        HostTree::Rank3(v) => {
            assert_eq!(v.len(), 3);
            assert_eq!(v[0][0], vec![HostScalar::U8(1), HostScalar::U8(2)]);
            assert_eq!(v[2][1], vec![HostScalar::U8(11), HostScalar::U8(12)]);
        }
        other => panic!("expected three levels, got {other:?}"),
    }
}

#[test]
fn rank4_is_rejected_with_the_actual_rank() {
    let t = Tensor::zeros(&[2usize, 2, 2, 2], candle_core::DType::F32, &Device::Cpu).unwrap();
    let h = handle(t);
    assert_eq!(
        to_host_tree(&h),
        Err(TensorError::UnsupportedRank { rank: 4 })
    );
}

#[test]
fn f16_elements_come_back_widened_to_f32() {
    let t = Tensor::new(&[0.5f32, -1.5], &Device::Cpu)
        .unwrap()
        .to_dtype(candle_core::DType::F16)
        .unwrap();
    let h = handle(t);
    assert_eq!(h.dtype(), DTag::F16);
    assert_eq!(
        to_host_tree(&h),
        Ok(HostTree::Rank1(vec![
            HostScalar::F32Bits(0.5f32.to_bits()),
            HostScalar::F32Bits((-1.5f32).to_bits()),
        ]))
    );
}

#[test]
fn bf16_elements_come_back_widened_to_f32() {
    let t = Tensor::new(&[2.0f32, 0.25], &Device::Cpu)
        .unwrap()
        .to_dtype(candle_core::DType::BF16)
        .unwrap();
    let h = handle(t);
    assert_eq!(h.dtype(), DTag::BF16);
    assert_eq!(
        to_host_tree(&h),
        Ok(HostTree::Rank1(vec![
            HostScalar::F32Bits(2.0f32.to_bits()),
            HostScalar::F32Bits(0.25f32.to_bits()),
        ]))
    );
}

#[test]
fn f64_elements_keep_their_width() {
    let t = Tensor::new(&[1.25f64], &Device::Cpu).unwrap();
    let h = handle(t);
    assert_eq!(
        to_host_tree(&h),
        Ok(HostTree::Rank1(vec![HostScalar::F64Bits(1.25f64.to_bits())]))
    );
}

#[test]
fn element_type_outside_the_closed_set_is_refused_at_wrapping() {
    let t = Tensor::zeros(&[2usize], candle_core::DType::I32, &Device::Cpu).unwrap();
    assert!(TensorHandle::from_tensor(t).is_none());
}

#[test]
fn dtype_names_round_trip() {
    for name in ["u8", "u32", "i64", "f16", "bf16", "f32", "f64"] {
        let tag = DTag::from_name(name).unwrap();
        assert_eq!(tag.name(), name);
    }
    assert!(DTag::from_name("F32").is_none());
    assert!(DTag::from_name("i32").is_none());
}
