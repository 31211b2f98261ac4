//! Verified model of an HDF5-style chunk filter pipeline.
//!
//! The crate covers the typed filter configurations (`filters::Filter`),
//! their lossless mapping to and from the flat `u32` parameter arrays that
//! the storage engine persists, the pipeline validation rules, and a
//! bit-exact encoder/decoder for the zfp compression filter's binary
//! header block.  Everything here is plain, pointer-free logic; the
//! embedder supplies the native engine and codec calls around it.

use vstd::prelude::*;

pub mod filters;
pub mod plist;
pub mod sys;
pub mod zfp;

verus! {

/// The error taxonomy of the library.  Every failure a verified function
/// can report is one of these; each function's contract says exactly when.
#[derive(Clone, Copy, Debug, PartialEq, Eq, Structural)]
pub enum Error {
    /// Malformed or out-of-range raw parameter data for a filter.
    ParameterError,
    /// A filter in the pipeline is not available, or cannot both encode
    /// and decode.
    FilterUnavailable,
    /// The same filter id occurs twice in a pipeline.
    DuplicateFilter,
    /// More than one compression-class filter in a pipeline.
    MultipleCompressionFilters,
    /// A shuffle/checksum/szip ordering rule is violated.
    OrderViolation,
    /// A scale-offset mode that does not fit the element type class.
    IncompatibleScaleOffsetMode,
    /// Too many non-singleton chunk dimensions for the codec.
    DimensionError,
    /// The underlying transform failed.
    CodecError,
}

} // verus!
