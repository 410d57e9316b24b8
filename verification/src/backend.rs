//! The trusted boundary to the external numeric engine. Everything the
//! library believes about the engine is stated here, on wrappers whose
//! bodies Verus does not read; every other module is verified against
//! these contracts alone.

use crate::device::DeviceTag;
use crate::dtype::DTag;
use crate::quant::QFormat;
use crate::quant::QuantizedTensor;
use crate::tensor::elem_count;
use crate::tensor::TensorHandle;
use candle_core::quantized::GgmlDType;
use candle_core::Module;
use candle_core::quantized::QMatMul;
use candle_core::quantized::QTensor;
use half::bf16 as HalfBf16;
use half::f16 as HalfF16;
use std::primitive::f32 as Float32;
use std::primitive::f64 as Float64;
use vstd::prelude::*;

verus! {

#[verifier::external_type_specification]
#[verifier::external_body]
pub struct ExTensor(candle_core::Tensor);

#[verifier::external_type_specification]
#[verifier::external_body]
pub struct ExDevice(candle_core::Device);

#[verifier::external_type_specification]
#[verifier::external_body]
pub struct ExError(candle_core::Error);

#[verifier::external_type_specification]
#[verifier::external_body]
pub struct ExQTensor(QTensor);

#[verifier::external_type_specification]
#[verifier::external_body]
pub struct ExQMatMul(QMatMul);

/// Relies on candle_core::Tensor::dims: the per-axis extents of the
/// tensor, one entry per axis, in order.
#[verifier::external_body]
pub(crate) fn dims_of(t: &candle_core::Tensor) -> Vec<usize> {
    t.dims().to_vec()
}

/// Relies on candle_core::Tensor::dtype: the stored element type, mapped
/// one arm per variant onto the closed set; element types outside the set
/// yield nothing.
#[verifier::external_body]
pub(crate) fn dtag_of(t: &candle_core::Tensor) -> Option<DTag> {
    match t.dtype() {
        candle_core::DType::U8 => Some(DTag::U8),
        candle_core::DType::U32 => Some(DTag::U32),
        candle_core::DType::I64 => Some(DTag::I64),
        candle_core::DType::F16 => Some(DTag::F16),
        candle_core::DType::BF16 => Some(DTag::BF16),
        candle_core::DType::F32 => Some(DTag::F32),
        candle_core::DType::F64 => Some(DTag::F64),
        _ => None,
    }
}

/// Relies on the Display impl of candle_core::Error: the engine's own
/// diagnostic text, passed through unmodified.
#[verifier::external_body]
pub(crate) fn error_text(e: &candle_core::Error) -> String {
    format!("{e}")
}

/// Relies on candle_core::Tensor::flatten_all and Tensor::to_vec1: the
/// stored elements in row-major order, one per element of the shape the
/// handle mirrors.
#[verifier::external_body]
pub(crate) fn read_flat_u8(t: &TensorHandle) -> (r: Result<Vec<u8>, candle_core::Error>)
    requires
        t.spec_dtype() == DTag::U8,
    ensures
        r matches Ok(v) ==> v@.len() == elem_count(t.spec_shape()),
{
    t.inner.flatten_all().and_then(|f| f.to_vec1::<u8>())
}

/// Relies on candle_core::Tensor::flatten_all and Tensor::to_vec1: the
/// stored elements in row-major order, one per element of the shape the
/// handle mirrors.
#[verifier::external_body]
pub(crate) fn read_flat_u32(t: &TensorHandle) -> (r: Result<Vec<u32>, candle_core::Error>)
    requires
        t.spec_dtype() == DTag::U32,
    ensures
        r matches Ok(v) ==> v@.len() == elem_count(t.spec_shape()),
{
    t.inner.flatten_all().and_then(|f| f.to_vec1::<u32>())
}

/// Relies on candle_core::Tensor::flatten_all and Tensor::to_vec1: the
/// stored elements in row-major order, one per element of the shape the
/// handle mirrors.
#[verifier::external_body]
pub(crate) fn read_flat_i64(t: &TensorHandle) -> (r: Result<Vec<i64>, candle_core::Error>)
    requires
        t.spec_dtype() == DTag::I64,
    ensures
        r matches Ok(v) ==> v@.len() == elem_count(t.spec_shape()),
{
    t.inner.flatten_all().and_then(|f| f.to_vec1::<i64>())
}

/// Relies on candle_core::Tensor::flatten_all, Tensor::to_vec1 and the
/// half crate's widening conversion to a 32-bit float: each element in
/// row-major order, widened and handed over as its bit pattern.
#[verifier::external_body]
pub(crate) fn read_flat_f16_bits(t: &TensorHandle) -> (r: Result<Vec<u32>, candle_core::Error>)
    requires
        t.spec_dtype() == DTag::F16,
    ensures
        r matches Ok(v) ==> v@.len() == elem_count(t.spec_shape()),
{
    let v = t.inner.flatten_all().and_then(|f| f.to_vec1::<HalfF16>())?;
    Ok(v.into_iter().map(|x| Float32::from(x).to_bits()).collect())
}

/// Relies on candle_core::Tensor::flatten_all, Tensor::to_vec1 and the
/// half crate's widening conversion to a 32-bit float: each element in
/// row-major order, widened and handed over as its bit pattern.
#[verifier::external_body]
pub(crate) fn read_flat_bf16_bits(t: &TensorHandle) -> (r: Result<Vec<u32>, candle_core::Error>)
    requires
        t.spec_dtype() == DTag::BF16,
    ensures
        r matches Ok(v) ==> v@.len() == elem_count(t.spec_shape()),
{
    let v = t.inner.flatten_all().and_then(|f| f.to_vec1::<HalfBf16>())?;
    Ok(v.into_iter().map(|x| Float32::from(x).to_bits()).collect())
}

/// Relies on candle_core::Tensor::flatten_all and Tensor::to_vec1: each
/// 32-bit float element in row-major order, handed over as its bit
/// pattern.
#[verifier::external_body]
pub(crate) fn read_flat_f32_bits(t: &TensorHandle) -> (r: Result<Vec<u32>, candle_core::Error>)
    requires
        t.spec_dtype() == DTag::F32,
    ensures
        r matches Ok(v) ==> v@.len() == elem_count(t.spec_shape()),
{
    let v = t.inner.flatten_all().and_then(|f| f.to_vec1::<Float32>())?;
    Ok(v.into_iter().map(|x| x.to_bits()).collect())
}

/// Relies on candle_core::Tensor::flatten_all and Tensor::to_vec1: each
/// 64-bit float element in row-major order, handed over as its bit
/// pattern.
#[verifier::external_body]
pub(crate) fn read_flat_f64_bits(t: &TensorHandle) -> (r: Result<Vec<u64>, candle_core::Error>)
    requires
        t.spec_dtype() == DTag::F64,
    ensures
        r matches Ok(v) ==> v@.len() == elem_count(t.spec_shape()),
{
    let v = t.inner.flatten_all().and_then(|f| f.to_vec1::<Float64>())?;
    Ok(v.into_iter().map(|x| x.to_bits()).collect())
}

/// Relies on candle_core::quantized::QTensor::quantize: encodes the
/// source tensor with the engine encoding named by the format, one arm
/// per member of the vocabulary; the result keeps the source's shape.
#[verifier::external_body]
pub(crate) fn quantize_raw(t: &TensorHandle, fmt: &QFormat) -> (r: Result<
    QTensor,
    candle_core::Error,
>) {
    let dt = match fmt {
        QFormat::Q2K => GgmlDType::Q2K, QFormat::Q3K => GgmlDType::Q3K,
        QFormat::Q4_0 => GgmlDType::Q4_0, QFormat::Q4_1 => GgmlDType::Q4_1,
        QFormat::Q4K => GgmlDType::Q4K, QFormat::Q5_0 => GgmlDType::Q5_0,
        QFormat::Q5_1 => GgmlDType::Q5_1, QFormat::Q5K => GgmlDType::Q5K,
        QFormat::Q6K => GgmlDType::Q6K, QFormat::Q8_0 => GgmlDType::Q8_0,
        QFormat::Q8_1 => GgmlDType::Q8_1, QFormat::Q8K => GgmlDType::Q8K,
        QFormat::F16 => GgmlDType::F16, QFormat::F32 => GgmlDType::F32,
    };
    QTensor::quantize(&t.inner, dt)
}

/// Relies on candle_core::quantized::QTensor::dequantize: recovers an
/// approximate floating tensor on the given device; the engine's source
/// shows the result carries the quantized tensor's shape and 32-bit
/// float elements, which the returned handle mirrors.
#[verifier::external_body]
pub(crate) fn dequantize_raw(q: &QuantizedTensor, device: &candle_core::Device) -> (r: Result<
    TensorHandle,
    candle_core::Error,
>)
    ensures
        r matches Ok(h) ==> h.spec_shape() == q.spec_shape() && h.spec_dtype() == DTag::F32,
{
    let inner = q.inner.dequantize(device)?;
    Ok(TensorHandle { inner, shape: q.shape.clone(), dtag: DTag::F32 })
}

/// Relies on candle_core::quantized::QMatMul::from_arc: a matmul
/// operator over a shared quantized left-hand operand. Its behaviour
/// depends on the process environment, so nothing is stated of it.
#[verifier::external_body]
pub(crate) fn qmatmul_from_arc(q: &QuantizedTensor) -> (r: Result<QMatMul, candle_core::Error>) {
    QMatMul::from_arc(q.inner.clone())
}

/// Relies on the Module impl of candle_core::quantized::QMatMul: the
/// product of the right-hand tensor with the quantized operand,
/// transposed, as the engine computes it.
#[verifier::external_body]
pub(crate) fn qmatmul_forward(m: &QMatMul, rhs: &TensorHandle) -> (r: Result<
    candle_core::Tensor,
    candle_core::Error,
>) {
    m.forward(&rhs.inner)
}

/// Relies on candle_core::quantized::QTensor::shape: the per-axis
/// extents of the encoded tensor, one entry per axis, in order.
#[verifier::external_body]
pub(crate) fn qtensor_dims(q: &QTensor) -> Vec<usize> {
    q.shape().dims().to_vec()
}

/// Relies on candle_core::quantized::QTensor::dtype: the encoding the
/// tensor carries, mapped one arm per variant onto the fixed vocabulary;
/// encodings outside it yield nothing.
#[verifier::external_body]
pub(crate) fn qtensor_format(q: &QTensor) -> Option<QFormat> {
    match q.dtype() {
        GgmlDType::Q2K => Some(QFormat::Q2K), GgmlDType::Q3K => Some(QFormat::Q3K),
        GgmlDType::Q4_0 => Some(QFormat::Q4_0), GgmlDType::Q4_1 => Some(QFormat::Q4_1),
        GgmlDType::Q4K => Some(QFormat::Q4K), GgmlDType::Q5_0 => Some(QFormat::Q5_0),
        GgmlDType::Q5_1 => Some(QFormat::Q5_1), GgmlDType::Q5K => Some(QFormat::Q5K),
        GgmlDType::Q6K => Some(QFormat::Q6K), GgmlDType::Q8_0 => Some(QFormat::Q8_0),
        GgmlDType::Q8_1 => Some(QFormat::Q8_1), GgmlDType::Q8K => Some(QFormat::Q8K),
        GgmlDType::F16 => Some(QFormat::F16), GgmlDType::F32 => Some(QFormat::F32),
        GgmlDType::BF16 => None,
    }
}

/// Relies on Arc::clone: another owner of the same encoded storage.
#[verifier::external_body]
pub(crate) fn share_qtensor(q: &std::sync::Arc<QTensor>) -> std::sync::Arc<QTensor> {
    q.clone()
}

/// Relies on candle_core::Device: the plain processor device, which
/// needs no initialization.
#[verifier::external_body]
pub(crate) fn cpu_device() -> candle_core::Device {
    candle_core::Device::Cpu
}

/// Relies on candle_core::Device::new_cuda: initializes the accelerator
/// with the given ordinal, or reports the engine's failure.
#[verifier::external_body]
pub(crate) fn new_cuda_device(ordinal: usize) -> (r: Result<
    candle_core::Device,
    candle_core::Error,
>) {
    candle_core::Device::new_cuda(ordinal)
}

/// Relies on the Clone impl of candle_core::Device: another handle to
/// the same device.
#[verifier::external_body]
pub(crate) fn clone_device(d: &candle_core::Device) -> candle_core::Device {
    d.clone()
}

/// Relies on candle_core::Tensor::device: which locale the tensor lives
/// on, one arm per engine variant; locales outside the modeled pair
/// yield nothing.
#[verifier::external_body]
pub(crate) fn device_tag_of(t: &candle_core::Tensor) -> Option<DeviceTag> {
    match t.device() {
        candle_core::Device::Cpu => Some(DeviceTag::Cpu),
        candle_core::Device::Cuda(_) => Some(DeviceTag::Cuda),
        _ => None,
    }
}

} // verus!
