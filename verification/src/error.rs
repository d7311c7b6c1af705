//! Error taxonomy of the resolution layer.

use vstd::prelude::*;

verus! {

/// Why a resolution step failed.
///
/// Errors from the data provider propagate unchanged up through the field
/// that triggered them; a failure in one field does not abort sibling fields.
#[derive(Clone, Copy, Debug, PartialEq, Eq, Structural)]
pub enum Error {
    /// The requested id, digest or key has no corresponding entity.
    NotFound,
    /// The data provider failed (I/O, backend unavailable, malformed backend
    /// data).
    Provider,
    /// Contradictory pagination arguments (both directions requested) or an
    /// unsupported filter combination; raised before any provider call.
    InvalidArgument,
    /// The operation is intentionally not backed by data.
    Unsupported,
}

} // verus!
