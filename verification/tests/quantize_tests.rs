use candle_core::Device;
use candle_core::Tensor;
use tensor_bridge::dtype::DTag;
use tensor_bridge::error::TensorError;
use tensor_bridge::quant::quantize;
use tensor_bridge::quant::QFormat;
use tensor_bridge::tensor::TensorHandle;

const ALL_TAGS: [&str; 14] = [
    "q2k", "q3k", "q4_0", "q4_1", "q4k", "q5_0", "q5_1", "q5k", "q6k", "q8_0", "q8_1", "q8k",
    "f16", "f32",
];

fn float_source() -> TensorHandle {
    let values: Vec<f32> = (0..1024).map(|i| (i as f32) * 0.25 - 100.0).collect();
    let t = Tensor::from_vec(values, (4, 256), &Device::Cpu).unwrap();
    TensorHandle::from_tensor(t).unwrap()
}

#[test]
fn every_tag_of_the_vocabulary_quantizes() {
    let src = float_source();
    for tag in ALL_TAGS {
        let q = quantize(&src, tag).unwrap_or_else(|e| panic!("tag {tag} failed: {e:?}"));
        assert_eq!(q.shape().as_slice(), &[4, 256], "shape under tag {tag}");
        assert_eq!(q.format(), QFormat::from_tag(tag).unwrap());
    }
}

#[test]
fn dequantize_recovers_the_source_shape_for_every_tag() {
    let src = float_source();
    for tag in ALL_TAGS {
        let q = quantize(&src, tag).unwrap();
        let back = q.dequantize(&Device::Cpu).unwrap();
        assert_eq!(back.shape().as_slice(), &[4, 256], "shape under tag {tag}");
        assert_eq!(back.dtype(), DTag::F32);
    }
}

#[test]
fn unknown_tag_is_rejected_and_echoed_verbatim() {
    let src = float_source();
    match quantize(&src, "unknown_tag") {
        Err(TensorError::UnknownFormat { tag }) => {
            assert!(tag.contains("unknown_tag"));
            assert_eq!(tag, "unknown_tag");
        }
        other => panic!("expected UnknownFormat, got {other:?}"),
    }
}

#[test]
fn tag_matching_is_case_sensitive_and_exact() {
    let src = float_source();
    for wrong in ["Q4_0", "q4_0 ", " q4_0", "q4-0", "f64", ""] {
        assert!(
            matches!(
                quantize(&src, wrong),
                Err(TensorError::UnknownFormat { .. })
            ),
            "tag {wrong:?} should be rejected"
        );
    }
}

#[test]
fn format_tags_round_trip_through_the_vocabulary() {
    for tag in ALL_TAGS {
        let f = QFormat::from_tag(tag).unwrap();
        assert_eq!(f.tag(), tag);
        assert_eq!(QFormat::from_tag(f.tag()), Some(f));
    }
}

#[test]
fn shared_handles_describe_the_same_tensor() {
    let src = float_source();
    let q = quantize(&src, "q8_0").unwrap();
    let other = q.share();
    assert_eq!(other.shape(), q.shape());
    assert_eq!(other.format(), q.format());
    assert_eq!(other.rank(), 2);
    let back = other.dequantize(&Device::Cpu).unwrap();
    assert_eq!(back.shape().as_slice(), &[4, 256]);
}

#[test]
fn quantized_matmul_contracts_over_the_shared_axis() {
    let src = float_source();
    let q = quantize(&src, "q8_0").unwrap();
    let rhs_values: Vec<f32> = (0..512).map(|i| (i as f32) * 0.01).collect();
    let rhs = Tensor::from_vec(rhs_values, (2, 256), &Device::Cpu).unwrap();
    let rhs = TensorHandle::from_tensor(rhs).unwrap();
    let out = q.quantized_matmul(&rhs).unwrap();
    assert_eq!(out.shape().as_slice(), &[2, 4]);
    assert_eq!(out.dtype(), DTag::F32);
}

#[test]
fn quantize_rejects_a_source_the_encoding_cannot_block() {
    let t = Tensor::new(&[1.0f32, 2.0, 3.0], &Device::Cpu).unwrap();
    let src = TensorHandle::from_tensor(t).unwrap();
    match quantize(&src, "q4_0") {
        Err(TensorError::BackendFailure { message }) => {
            assert!(!message.is_empty());
        }
        other => panic!("expected BackendFailure, got {other:?}"),
    }
}
