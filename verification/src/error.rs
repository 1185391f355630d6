//! The ways in which processing a file can fail.

use vstd::prelude::*;

verus! {

/// Why the processing of one file stopped.
#[derive(Clone, Copy, Debug, PartialEq, Eq, Structural)]
pub enum PipelineError {
    /// The bytes of the file could not be read.
    ReadError,
    /// The bytes are not a valid image, or the image has no pixels.
    DecodeError,
    /// The downsampling divisor is zero or exceeds a side of the image.
    InvalidResolution,
    /// The image could not be serialised for display.
    EncodeError,
}

} // verus!
