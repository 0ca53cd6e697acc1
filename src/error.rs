use vstd::prelude::*;

verus! {

/// Failures that a pipeline call reports to its caller.
#[derive(Debug, Clone, Copy, PartialEq, Eq, Structural)]
pub enum PipelineError {
    /// The source pixel buffer could not be obtained.
    DecodeFailed,
    /// An argument was rejected before any computation began.
    InvalidArgument,
    /// A requested frame index is not below the frame count.
    FrameOutOfRange,
    /// A transcode target lies outside the uncompressed set.
    UnsupportedTarget,
    /// The raster or container encoder failed.
    EncodeFailed,
}

} // verus!
