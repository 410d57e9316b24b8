//! Selection of a quantization encoding by a runtime string tag, over a
//! fixed vocabulary of fourteen names: twelve fixed-block integer
//! encodings and two float pass-throughs. The mapping is total, static
//! and case-sensitive, so tags round-trip exactly with on-disk format
//! identifiers.

use crate::backend;
use crate::dtype::DTag;
use crate::error::TensorError;
use crate::strutil::str_equal;
use crate::tensor::copy_shape;
use crate::tensor::TensorHandle;
use std::sync::Arc;
use vstd::prelude::*;

verus! {

/// One quantization encoding of the fixed vocabulary.
#[derive(Clone, Copy, Debug, PartialEq, Eq, Structural)]
pub enum QFormat {
    Q2K,
    Q3K,
    Q4_0,
    Q4_1,
    Q4K,
    Q5_0,
    Q5_1,
    Q5K,
    Q6K,
    Q8_0,
    Q8_1,
    Q8K,
    F16,
    F32,
}

/// The tag of each encoding, exactly as it appears on disk.
pub open spec fn format_tag_spec(f: QFormat) -> Seq<char> {
    match f {
        QFormat::Q2K => "q2k"@,
        QFormat::Q3K => "q3k"@,
        QFormat::Q4_0 => "q4_0"@,
        QFormat::Q4_1 => "q4_1"@,
        QFormat::Q4K => "q4k"@,
        QFormat::Q5_0 => "q5_0"@,
        QFormat::Q5_1 => "q5_1"@,
        QFormat::Q5K => "q5k"@,
        QFormat::Q6K => "q6k"@,
        QFormat::Q8_0 => "q8_0"@,
        QFormat::Q8_1 => "q8_1"@,
        QFormat::Q8K => "q8k"@,
        QFormat::F16 => "f16"@,
        QFormat::F32 => "f32"@,
    }
}

/// The encoding a tag denotes, or nothing: the match is exact and
/// case-sensitive, with no fuzzy matching.
pub open spec fn format_from_tag_spec(s: Seq<char>) -> Option<QFormat> {
    if s == "q2k"@ {
        Some(QFormat::Q2K)
    } else if s == "q3k"@ {
        Some(QFormat::Q3K)
    } else if s == "q4_0"@ {
        Some(QFormat::Q4_0)
    } else if s == "q4_1"@ {
        Some(QFormat::Q4_1)
    } else if s == "q4k"@ {
        Some(QFormat::Q4K)
    } else if s == "q5_0"@ {
        Some(QFormat::Q5_0)
    } else if s == "q5_1"@ {
        Some(QFormat::Q5_1)
    } else if s == "q5k"@ {
        Some(QFormat::Q5K)
    } else if s == "q6k"@ {
        Some(QFormat::Q6K)
    } else if s == "q8_0"@ {
        Some(QFormat::Q8_0)
    } else if s == "q8_1"@ {
        Some(QFormat::Q8_1)
    } else if s == "q8k"@ {
        Some(QFormat::Q8K)
    } else if s == "f16"@ {
        Some(QFormat::F16)
    } else if s == "f32"@ {
        Some(QFormat::F32)
    } else {
        None
    }
}

impl QFormat {
    /// Looks a tag up in the fixed vocabulary; exactly the fourteen tags
    /// are accepted.
    pub fn from_tag(tag: &str) -> (r: Option<QFormat>)
        ensures
            r == format_from_tag_spec(tag@),
    {
        if str_equal(tag, "q2k") {
            Some(QFormat::Q2K)
        } else if str_equal(tag, "q3k") {
            Some(QFormat::Q3K)
        } else if str_equal(tag, "q4_0") {
            Some(QFormat::Q4_0)
        } else if str_equal(tag, "q4_1") {
            Some(QFormat::Q4_1)
        } else if str_equal(tag, "q4k") {
            Some(QFormat::Q4K)
        } else if str_equal(tag, "q5_0") {
            Some(QFormat::Q5_0)
        } else if str_equal(tag, "q5_1") {
            Some(QFormat::Q5_1)
        } else if str_equal(tag, "q5k") {
            Some(QFormat::Q5K)
        } else if str_equal(tag, "q6k") {
            Some(QFormat::Q6K)
        } else if str_equal(tag, "q8_0") {
            Some(QFormat::Q8_0)
        } else if str_equal(tag, "q8_1") {
            Some(QFormat::Q8_1)
        } else if str_equal(tag, "q8k") {
            Some(QFormat::Q8K)
        } else if str_equal(tag, "f16") {
            Some(QFormat::F16)
        } else if str_equal(tag, "f32") {
            Some(QFormat::F32)
        } else {
            None
        }
    }

    /// The tag of this encoding; looking it up yields this encoding.
    pub fn tag(&self) -> (r: &'static str)
        ensures
            r@ == format_tag_spec(*self),
    {
        match self {
            QFormat::Q2K => "q2k",
            QFormat::Q3K => "q3k",
            QFormat::Q4_0 => "q4_0",
            QFormat::Q4_1 => "q4_1",
            QFormat::Q4K => "q4k",
            QFormat::Q5_0 => "q5_0",
            QFormat::Q5_1 => "q5_1",
            QFormat::Q5K => "q5k",
            QFormat::Q6K => "q6k",
            QFormat::Q8_0 => "q8_0",
            QFormat::Q8_1 => "q8_1",
            QFormat::Q8K => "q8k",
            QFormat::F16 => "f16",
            QFormat::F32 => "f32",
        }
    }
}

/// A quantized tensor handle: shared, immutable, carrying its encoding
/// tag and the shape of the source tensor it was encoded from.
#[derive(Debug)]
pub struct QuantizedTensor {
    pub(crate) inner: Arc<candle_core::quantized::QTensor>,
    pub(crate) shape: Vec<usize>,
    pub(crate) fmt: QFormat,
}

/// Applies the encoding named by `tag` to the source tensor. A tag
/// outside the vocabulary is rejected with the tag echoed verbatim; a
/// recognized tag selects exactly one encoding and hands the source to
/// the engine, whose failures pass through.
pub fn quantize(t: &TensorHandle, tag: &str) -> (r: Result<QuantizedTensor, TensorError>)
    ensures
        (format_from_tag_spec(tag@) is None) <==> r matches Err(TensorError::UnknownFormat { .. }),
        r matches Err(TensorError::UnknownFormat { tag: echoed }) ==> echoed@ == tag@,
        r matches Ok(q) ==> Some(q.spec_format()) == format_from_tag_spec(tag@) && q.spec_shape()
            == t.spec_shape(),
        r matches Err(e) ==> (e matches TensorError::UnknownFormat { .. } || e matches
            TensorError::BackendFailure { .. }),
{
    match QFormat::from_tag(tag) {
        None => Err(TensorError::UnknownFormat { tag: tag.to_owned() }),
        Some(fmt) => match backend::quantize_raw(t, &fmt) {
            Ok(qt) => Ok(
                QuantizedTensor { inner: Arc::new(qt), shape: copy_shape(t.shape()), fmt },
            ),
            Err(e) => Err(TensorError::BackendFailure { message: backend::error_text(&e) }),
        },
    }
}

impl QuantizedTensor {
    /// Wraps an already encoded tensor, as a codec hands it over,
    /// reading its shape and encoding once; a tensor whose encoding is
    /// outside the fixed vocabulary is refused.
    pub fn from_qtensor(qt: candle_core::quantized::QTensor) -> (r: Option<QuantizedTensor>) {
        let shape = backend::qtensor_dims(&qt);
        match backend::qtensor_format(&qt) {
            Some(fmt) => Some(QuantizedTensor { inner: Arc::new(qt), shape, fmt }),
            None => None,
        }
    }

    /// The shape of the source this handle was encoded from.
    pub closed spec fn spec_shape(&self) -> Seq<usize> {
        self.shape@
    }

    /// The encoding this handle carries.
    pub closed spec fn spec_format(&self) -> QFormat {
        self.fmt
    }

    /// The number of axes of the encoded tensor.
    pub fn rank(&self) -> (r: usize)
        ensures
            r == self.spec_shape().len(),
    {
        self.shape.len()
    }

    /// The per-axis extents of the encoded tensor, in order.
    pub fn shape(&self) -> (r: &Vec<usize>)
        ensures
            r@ == self.spec_shape(),
    {
        &self.shape
    }

    /// The encoding tag this handle carries.
    pub fn format(&self) -> (r: QFormat)
        ensures
            r == self.spec_format(),
    {
        self.fmt
    }

    /// Another independent holder of the same encoded tensor: ownership
    /// is shared, and the storage lives until the last holder drops.
    pub fn share(&self) -> (r: QuantizedTensor)
        ensures
            r.spec_shape() == self.spec_shape(),
            r.spec_format() == self.spec_format(),
    {
        QuantizedTensor {
            inner: backend::share_qtensor(&self.inner),
            shape: copy_shape(&self.shape),
            fmt: self.fmt,
        }
    }

    /// Recovers an approximate floating tensor on the given device. The
    /// result keeps this handle's shape and stores 32-bit floats; engine
    /// failures pass through unchanged.
    pub fn dequantize(&self, device: &candle_core::Device) -> (r: Result<
        TensorHandle,
        TensorError,
    >)
        ensures
            r matches Ok(h) ==> h.spec_shape() == self.spec_shape() && h.spec_dtype()
                == DTag::F32,
            r matches Err(e) ==> e matches TensorError::BackendFailure { .. },
    {
        match backend::dequantize_raw(self, device) {
            Ok(h) => Ok(h),
            Err(e) => Err(TensorError::BackendFailure { message: backend::error_text(&e) }),
        }
    }

    /// Multiplies the right-hand tensor against this quantized operand,
    /// transposed; the work is delegated entirely to the engine and its
    /// failures pass through unchanged.
    pub fn quantized_matmul(&self, rhs: &TensorHandle) -> (r: Result<TensorHandle, TensorError>)
        ensures
            r matches Err(e) ==> e matches TensorError::BackendFailure { .. },
    {
        let m = match backend::qmatmul_from_arc(self) {
            Ok(m) => m,
            Err(e) => {
                return Err(TensorError::BackendFailure { message: backend::error_text(&e) });
            },
        };
        let out = match backend::qmatmul_forward(&m, rhs) {
            Ok(out) => out,
            Err(e) => {
                return Err(TensorError::BackendFailure { message: backend::error_text(&e) });
            },
        };
        match TensorHandle::from_tensor(out) {
            Some(h) => Ok(h),
            None => Err(
                TensorError::BackendFailure {
                    message: "engine returned an element type outside the supported set".to_owned(),
                },
            ),
        }
    }
}

/// Encoding tags round-trip exactly: the tag of an encoding looks back
/// up to the same encoding, for every member of the vocabulary.
pub proof fn lemma_format_tag_round_trip(f: QFormat)
    ensures
        format_from_tag_spec(format_tag_spec(f)) == Some(f),
{
    reveal_strlit("q2k");
    reveal_strlit("q3k");
    reveal_strlit("q4_0");
    reveal_strlit("q4_1");
    reveal_strlit("q4k");
    reveal_strlit("q5_0");
    reveal_strlit("q5_1");
    reveal_strlit("q5k");
    reveal_strlit("q6k");
    reveal_strlit("q8_0");
    reveal_strlit("q8_1");
    reveal_strlit("q8k");
    reveal_strlit("f16");
    reveal_strlit("f32");
    assert("q2k"@.len() == 3 && "q3k"@.len() == 3 && "q4k"@.len() == 3 && "q5k"@.len() == 3
        && "q6k"@.len() == 3 && "q8k"@.len() == 3 && "f16"@.len() == 3 && "f32"@.len() == 3);
    assert("q4_0"@.len() == 4 && "q4_1"@.len() == 4 && "q5_0"@.len() == 4 && "q5_1"@.len() == 4
        && "q8_0"@.len() == 4 && "q8_1"@.len() == 4);
    assert("q2k"@[1] == '2' && "q3k"@[1] == '3' && "q4k"@[1] == '4' && "q5k"@[1] == '5'
        && "q6k"@[1] == '6' && "q8k"@[1] == '8');
    assert("q4_0"@[1] == '4' && "q4_1"@[1] == '4' && "q5_0"@[1] == '5' && "q5_1"@[1] == '5'
        && "q8_0"@[1] == '8' && "q8_1"@[1] == '8');
    assert("q4_0"@[3] == '0' && "q4_1"@[3] == '1' && "q5_0"@[3] == '0' && "q5_1"@[3] == '1'
        && "q8_0"@[3] == '0' && "q8_1"@[3] == '1');
    assert("q2k"@[0] == 'q' && "q3k"@[0] == 'q' && "q4k"@[0] == 'q' && "q5k"@[0] == 'q'
        && "q6k"@[0] == 'q' && "q8k"@[0] == 'q' && "f16"@[0] == 'f' && "f32"@[0] == 'f');
    assert("f16"@[1] == '1' && "f32"@[1] == '3');
    match f {
        QFormat::Q2K => assert(format_from_tag_spec("q2k"@) == Some(QFormat::Q2K)),
        QFormat::Q3K => {
            assert("q3k"@ != "q2k"@);
            assert(format_from_tag_spec("q3k"@) == Some(QFormat::Q3K));
        },
        QFormat::Q4_0 => assert(format_from_tag_spec("q4_0"@) == Some(QFormat::Q4_0)),
        QFormat::Q4_1 => {
            assert("q4_1"@ != "q4_0"@);
            assert(format_from_tag_spec("q4_1"@) == Some(QFormat::Q4_1));
        },
        QFormat::Q4K => {
            assert("q4k"@ != "q2k"@ && "q4k"@ != "q3k"@);
            assert(format_from_tag_spec("q4k"@) == Some(QFormat::Q4K));
        },
        QFormat::Q5_0 => {
            assert("q5_0"@ != "q4_0"@ && "q5_0"@ != "q4_1"@);
            assert(format_from_tag_spec("q5_0"@) == Some(QFormat::Q5_0));
        },
        QFormat::Q5_1 => {
            assert("q5_1"@ != "q4_0"@ && "q5_1"@ != "q4_1"@ && "q5_1"@ != "q5_0"@);
            assert(format_from_tag_spec("q5_1"@) == Some(QFormat::Q5_1));
        },
        QFormat::Q5K => {
            assert("q5k"@ != "q2k"@ && "q5k"@ != "q3k"@ && "q5k"@ != "q4k"@);
            assert(format_from_tag_spec("q5k"@) == Some(QFormat::Q5K));
        },
        QFormat::Q6K => {
            assert("q6k"@ != "q2k"@ && "q6k"@ != "q3k"@ && "q6k"@ != "q4k"@ && "q6k"@ != "q5k"@);
            assert(format_from_tag_spec("q6k"@) == Some(QFormat::Q6K));
        },
        QFormat::Q8_0 => {
            assert("q8_0"@ != "q4_0"@ && "q8_0"@ != "q4_1"@ && "q8_0"@ != "q5_0"@ && "q8_0"@
                != "q5_1"@);
            assert(format_from_tag_spec("q8_0"@) == Some(QFormat::Q8_0));
        },
        QFormat::Q8_1 => {
            assert("q8_1"@ != "q4_0"@ && "q8_1"@ != "q4_1"@ && "q8_1"@ != "q5_0"@ && "q8_1"@
                != "q5_1"@ && "q8_1"@ != "q8_0"@);
            assert(format_from_tag_spec("q8_1"@) == Some(QFormat::Q8_1));
        },
        QFormat::Q8K => {
            assert("q8k"@ != "q2k"@ && "q8k"@ != "q3k"@ && "q8k"@ != "q4k"@ && "q8k"@ != "q5k"@
                && "q8k"@ != "q6k"@);
            assert(format_from_tag_spec("q8k"@) == Some(QFormat::Q8K));
        },
        QFormat::F16 => {
            assert("f16"@ != "q2k"@ && "f16"@ != "q3k"@ && "f16"@ != "q4k"@ && "f16"@ != "q5k"@
                && "f16"@ != "q6k"@ && "f16"@ != "q8k"@);
            assert(format_from_tag_spec("f16"@) == Some(QFormat::F16));
        },
        QFormat::F32 => {
            assert("f32"@ != "q2k"@ && "f32"@ != "q3k"@ && "f32"@ != "q4k"@ && "f32"@ != "q5k"@
                && "f32"@ != "q6k"@ && "f32"@ != "q8k"@ && "f32"@ != "f16"@);
            assert(format_from_tag_spec("f32"@) == Some(QFormat::F32));
        },
    }
}

/// Quantization preserves shape through dequantization: a handle that
/// `quantize` produced from a source tensor, and any tensor its
/// `dequantize` recovers, carry the source's shape.
pub proof fn lemma_quantize_dequantize_shape(t: TensorHandle, q: QuantizedTensor, h: TensorHandle)
    requires
        q.spec_shape() == t.spec_shape(),
        h.spec_shape() == q.spec_shape(),
    ensures
        h.spec_shape() == t.spec_shape(),
{
}

} // verus!
