//! The part that all kinds of frames share: a descriptor and the state of
//! the memory behind it.

use vstd::prelude::*;
use crate::frame::RawFrame;
use crate::frame::drop_guard::FrameDataDropGuard;

verus! {

/// A frame of one kind: the descriptor that the SDK reads and writes, and
/// the state of the frame's memory. The two always agree, in the way that
/// [`RawFrame::fits`] lays down for the kind.
#[derive(Debug)]
pub struct NDIFrame<Raw: RawFrame> {
    pub(crate) raw: Raw,
    pub(crate) alloc: FrameDataDropGuard,
}

/// Why a frame cannot be sent.
#[non_exhaustive]
#[derive(Debug, Clone, Copy, PartialEq, Eq)]
pub enum FFIReadablePtrError {
    /// The frame holds nothing to read; the text says why.
    NotReadable(&'static str),
}

/// Why the SDK may not write into a frame.
#[non_exhaustive]
#[derive(Debug, Clone, Copy, PartialEq, Eq)]
pub enum FFIWritablePtrError {
    /// The frame still holds memory; the text says of what sort.
    NotWritable(&'static str),
}

impl<Raw: RawFrame> NDIFrame<Raw> {
    #[verifier::type_invariant]
    pub open(crate) spec fn consistent(&self) -> bool {
        self.raw.fits(&self.alloc)
    }

    /// The descriptor of the frame.
    pub open(crate) spec fn descriptor(&self) -> Raw {
        self.raw
    }

    /// The state of the frame's memory.
    pub open(crate) spec fn memory(&self) -> FrameDataDropGuard {
        self.alloc
    }

    /// Descriptor and memory agree. This holds of every frame that a
    /// program holds.
    pub open spec fn wf(&self) -> bool {
        self.descriptor().fits(&self.memory())
    }

    /// Learns that the frame is well formed.
    pub fn check_wf(&self)
        ensures
            self.wf(),
    {
        proof {
            use_type_invariant(self);
        }
    }

    /// The descriptor of the frame, to read.
    pub fn raw(&self) -> (raw: &Raw)
        ensures
            *raw == self.descriptor(),
    {
        &self.raw
    }

    /// The state of the frame's memory, to read.
    pub fn guard(&self) -> (guard: &FrameDataDropGuard)
        ensures
            *guard == self.memory(),
    {
        &self.alloc
    }

    /// Checks if this frame can be written/received to by the SDK
    pub fn is_ffi_writable(&self) -> (b: bool)
        ensures
            b == self.memory().writable(),
    {
        self.alloc.is_ffi_writable()
    }

    /// Checks if this frame can be read/sent by the SDK
    pub fn is_ffi_readable(&self) -> (b: bool)
        ensures
            b == self.memory().readable(),
    {
        self.alloc.is_ffi_readable()
    }

    /// Checks if this frame is allocated/can be read by the user code
    pub fn is_allocated(&self) -> (b: bool)
        ensures
            b == self.memory().readable(),
    {
        self.alloc.is_allocated()
    }

    /// Tests whether the frame is as a capture call must find it and, if it
    /// delivered something else, leave it: without memory and with a
    /// descriptor that the SDK has not written.
    pub fn is_unwritten(&self) -> (b: bool)
        ensures
            b == (self.descriptor().unwritten() && self.memory().writable()),
    {
        self.raw.is_unwritten() && self.alloc.is_ffi_writable()
    }

    /// Decides whether the frame is handed to a capture call as a slot to
    /// write. A frame that still holds memory is not; the error says what
    /// it holds.
    pub fn to_ffi_recv_frame_ptr(&self) -> (slot: Result<(), FFIWritablePtrError>)
        ensures
            slot is Ok <==> self.memory().writable(),
            slot matches Err(FFIWritablePtrError::NotWritable(reason)) ==> reason@
                == self.memory().busy_reason(),
    {
        if self.alloc.is_ffi_writable() {
            Ok(())
        } else {
            Err(FFIWritablePtrError::NotWritable(self.alloc.reason_for_not_ffi_writable()))
        }
    }

    /// Hands out the descriptor to send, if the frame holds anything.
    pub fn to_ffi_send_frame_ptr(&self) -> (sendable: Result<&Raw, FFIReadablePtrError>)
        ensures
            match sendable {
                Ok(raw) => self.memory().readable() && *raw == self.descriptor(),
                Err(FFIReadablePtrError::NotReadable(reason)) => {
                    &&& !self.memory().readable()
                    &&& reason@ == "Frame is not allocated"@
                },
            },
    {
        if self.alloc.is_ffi_readable() {
            Ok(&self.raw)
        } else {
            Err(FFIReadablePtrError::NotReadable(self.alloc.reason_for_not_ffi_readable()))
        }
    }
}

/// Decides whether an optional frame is handed to a capture call: a frame
/// that is there and without memory.
pub open spec fn offered<Raw: RawFrame>(slot: Option<NDIFrame<Raw>>) -> bool {
    slot matches Some(frame) && frame.memory().writable()
}

} // verus!
