//! Contains information about the memory layout of video frame buffers.

use vstd::prelude::*;
use crate::enums::NDIFieldedFrameMode;
use crate::resolution::Resolution;
use crate::subsampling::Subsampling;

verus! {

/// Holds all information about the memory layout of a video frame buffer.
/// It is never stored: it is computed from the pixel format, the resolution
/// and the field mode of a frame whenever the buffer is touched.
#[non_exhaustive]
#[derive(Debug, Clone, Copy, Hash, PartialEq, Eq, Structural)]
pub struct BufferInfo {
    /// The size of the buffer in bytes. Takes into account the field mode.
    pub size: usize,
    /// The stride/size of a single line in bytes.
    pub line_stride: usize,
    pub resolution: Resolution,
    /// The field mode of the frame (progressive or interlaced).
    pub field_mode: NDIFieldedFrameMode,
    /// Information about chroma subsampling.
    pub subsampling: Subsampling,
}

} // verus!
