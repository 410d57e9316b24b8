//! Normalization of user-supplied signed axis and position indices into
//! canonical zero-based values, checked against a rank or an axis extent.

use crate::error::TensorError;
use vstd::prelude::*;

verus! {

/// Whether a signed request lies in the valid window `[-bound, bound)`.
pub open spec fn index_in_window(bound: int, requested: int) -> bool {
    -bound <= requested < bound
}

/// The canonical zero-based value of a signed request: negative requests
/// count from the end.
pub open spec fn canonical_index(bound: int, requested: int) -> int {
    if requested < 0 {
        bound + requested
    } else {
        requested
    }
}

/// Resolves a signed axis request against a tensor's rank: a request in
/// `[-rank, rank)` yields its canonical zero-based axis, anything else is
/// rejected, never clamped.
pub fn resolve_axis(rank: usize, requested: i64) -> (r: Result<usize, TensorError>)
    ensures
        r matches Ok(v) <==> index_in_window(rank as int, requested as int),
        r matches Ok(v) ==> v == canonical_index(rank as int, requested as int) && v < rank,
        !index_in_window(rank as int, requested as int) ==> r == Err::<usize, TensorError>(
            TensorError::OutOfRange { requested, bound: rank },
        ),
{
    resolve_signed(rank, requested)
}

/// Resolves a signed position request against one axis' extent, with the
/// same window and the same arithmetic as `resolve_axis`.
pub fn resolve_position(extent: usize, requested: i64) -> (r: Result<usize, TensorError>)
    ensures
        r matches Ok(v) <==> index_in_window(extent as int, requested as int),
        r matches Ok(v) ==> v == canonical_index(extent as int, requested as int) && v < extent,
        !index_in_window(extent as int, requested as int) ==> r == Err::<usize, TensorError>(
            TensorError::OutOfRange { requested, bound: extent },
        ),
{
    resolve_signed(extent, requested)
}

/// The shared arithmetic of the two resolvers.
fn resolve_signed(bound: usize, requested: i64) -> (r: Result<usize, TensorError>)
    ensures
        r matches Ok(v) <==> index_in_window(bound as int, requested as int),
        r matches Ok(v) ==> v == canonical_index(bound as int, requested as int) && v < bound,
        !index_in_window(bound as int, requested as int) ==> r == Err::<usize, TensorError>(
            TensorError::OutOfRange { requested, bound },
        ),
{
    if 0 <= requested {
        if (requested as i128) < (bound as i128) {
            Ok(requested as usize)
        } else {
            Err(TensorError::OutOfRange { requested, bound })
        }
    } else {
        let shifted: i128 = bound as i128 + requested as i128;
        if shifted >= 0 {
            Ok(shifted as usize)
        } else {
            Err(TensorError::OutOfRange { requested, bound })
        }
    }
}

/// A resolved request always lands in `[0, bound)`, and a negative request
/// resolves to the same canonical value as its non-negative shift by
/// `bound`: counting from the end agrees with counting from the start.
pub proof fn lemma_negative_request_shift(bound: int, requested: int)
    requires
        index_in_window(bound, requested),
    ensures
        0 <= canonical_index(bound, requested) < bound,
        requested < 0 ==> index_in_window(bound, requested + bound) && canonical_index(
            bound,
            requested,
        ) == canonical_index(bound, requested + bound),
{
}

/// A request outside the window is never given a canonical value in
/// `[0, bound)` by shifting: the window is exact on both sides.
pub proof fn lemma_window_exact(bound: int, requested: int)
    requires
        !index_in_window(bound, requested),
    ensures
        requested < -bound || requested >= bound,
{
}

} // verus!
