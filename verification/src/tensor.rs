//! The library's tensor handle: an opaque engine tensor together with the
//! plain values this layer reads of it — its shape and its element type.
//! All dispatch and normalization logic works on those plain values.

use crate::backend;
use crate::dtype::DTag;
use vstd::prelude::*;

verus! {

/// The number of elements a shape describes: the product of its extents,
/// one for the empty (scalar) shape.
pub open spec fn elem_count(shape: Seq<usize>) -> nat
    decreases shape.len(),
{
    if shape.len() == 0 {
        1
    } else {
        (shape[0] as nat) * elem_count(shape.drop_first())
    }
}

/// An element-for-element copy of a shape vector.
pub(crate) fn copy_shape(v: &Vec<usize>) -> (r: Vec<usize>)
    ensures
        r@ == v@,
{
    let mut out: Vec<usize> = Vec::new();
    let mut i: usize = 0;
    while i < v.len()
        invariant
            i <= v@.len(),
            out@ == v@.subrange(0, i as int),
        decreases v@.len() - i,
    {
        out.push(v[i]);
        i += 1;
    }
    proof {
        assert(out@ =~= v@);
    }
    out
}

/// An engine tensor wrapped with the plain values the library's logic
/// reads: its shape and its element-type tag. The handle never owns raw
/// storage; the engine does.
#[derive(Debug)]
pub struct TensorHandle {
    pub(crate) inner: candle_core::Tensor,
    pub(crate) shape: Vec<usize>,
    pub(crate) dtag: DTag,
}

impl TensorHandle {
    /// The shape this handle mirrors, one extent per axis.
    pub closed spec fn spec_shape(&self) -> Seq<usize> {
        self.shape@
    }

    /// The element-type tag this handle mirrors.
    pub closed spec fn spec_dtype(&self) -> DTag {
        self.dtag
    }

    /// Wraps an engine tensor, reading its shape and element type once;
    /// a tensor whose element type is outside the closed set of seven is
    /// refused.
    pub fn from_tensor(t: candle_core::Tensor) -> (r: Option<TensorHandle>) {
        let shape = backend::dims_of(&t);
        match backend::dtag_of(&t) {
            Some(dtag) => Some(TensorHandle { inner: t, shape, dtag }),
            None => None,
        }
    }

    /// The number of axes.
    pub fn rank(&self) -> (r: usize)
        ensures
            r == self.spec_shape().len(),
    {
        self.shape.len()
    }

    /// The per-axis extents, in order.
    pub fn shape(&self) -> (r: &Vec<usize>)
        ensures
            r@ == self.spec_shape(),
    {
        &self.shape
    }

    /// The element-type tag.
    pub fn dtype(&self) -> (r: DTag)
        ensures
            r == self.spec_dtype(),
    {
        self.dtag
    }

    /// The execution locale the tensor lives on, where it is one of the
    /// modeled pair.
    pub fn device(&self) -> Option<crate::device::DeviceTag> {
        backend::device_tag_of(&self.inner)
    }

    /// The wrapped engine tensor itself, for handing numeric work back
    /// to the engine; the handle states nothing of what is inside it.
    pub fn tensor(&self) -> &candle_core::Tensor {
        &self.inner
    }
}

} // verus!
