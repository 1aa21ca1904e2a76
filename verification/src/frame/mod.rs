//! Handling and manipulation of video/audio/metadata frames

pub mod audio;
pub mod drop_guard;
pub mod generic;
pub mod metadata;
pub mod video;

use vstd::prelude::*;
use crate::frame::drop_guard::{BufferRelease, FrameDataDropGuard};

pub use crate::frame::generic::NDIFrame;

verus! {

/// The descriptor of a frame as the SDK reads and writes it, one type for
/// each kind of frame. Pointers are not kept: where the SDK's structure
/// holds one, the descriptor says whether it is set.
pub trait RawFrame: Sized {
    /// The SDK has written neither data nor text into the descriptor.
    spec fn unwritten(&self) -> bool;

    /// The descriptor agrees with the state of the frame's memory. Which
    /// states a frame can be in depends on its kind.
    spec fn fits(&self, memory: &FrameDataDropGuard) -> bool;

    /// Tests whether the SDK has left the descriptor alone.
    fn is_unwritten(&self) -> (b: bool)
        ensures
            b == self.unwritten(),
    ;
}

/// What every kind of frame offers besides its own fields.
pub trait NDIFrameExt {
    /// The frame holds data.
    spec fn holds_data(&self) -> bool;

    /// What is left to do natively when the frame lets go of its memory.
    spec fn release_due(&self) -> BufferRelease;

    /// Tests whether the frame holds data.
    fn data_valid(&self) -> (b: bool)
        ensures
            b == self.holds_data(),
    ;

    /// Frees the buffers. The frame holds no data afterwards. Memory of the
    /// SDK is handed out to be freed natively.
    fn clear(&mut self) -> (release: BufferRelease)
        ensures
            !final(self).holds_data(),
            release == old(self).release_due(),
    ;
}

} // verus!
