use vstd::prelude::*;

verus! {

/// The error kinds this library raises. Each carries the data a host
/// binding needs to present the failure; none is swallowed internally.
#[derive(Debug, Clone, PartialEq, Eq)]
pub enum TensorError {
    /// A signed axis or position request fell outside the valid window
    /// for the given rank or extent.
    OutOfRange { requested: i64, bound: usize },
    /// Conversion to a host tree was asked of a tensor whose rank is
    /// above three.
    UnsupportedRank { rank: usize },
    /// The numeric engine reported a failure; its text passes through
    /// unmodified.
    BackendFailure { message: String },
    /// A quantization format tag outside the fixed vocabulary, echoed
    /// verbatim so that tags round-trip exactly.
    UnknownFormat { tag: String },
}

} // verus!
