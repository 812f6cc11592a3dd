use vstd::prelude::*;

verus! {

/// Why a seed set or a canvas could not be produced or written.
#[derive(Clone, Copy, Debug, PartialEq, Eq, Structural)]
pub enum VoronoiError {
    /// A seed count of zero, an empty seed set, or canvas dimensions too
    /// small for the request.
    InvalidParameters,
    /// Memory for the canvas could not be obtained.
    OutOfResources,
    /// The finished image could not be persisted.
    OutputWriteFailure,
}

} // verus!
