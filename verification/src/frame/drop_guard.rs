//! Who owns the memory behind a frame.

use vstd::prelude::*;
use std::sync::Arc;
use crate::receiver::RawReceiver;
use crate::sender::RawSender;
use crate::util::CString;

verus! {

/// Holds the frame allocation: the state of a frame's backing memory.
///
/// A frame starts without memory. It gets some either from the caller, who
/// allocates a buffer or hands over a text, or from the SDK, which writes a
/// frame into it during a capture call. Memory of the SDK stays the SDK's: it
/// is read-only, and it is given back through the instance that produced it.
#[derive(Debug)]
pub enum FrameDataDropGuard {
    /// No memory. Only in this state may the SDK write the frame.
    NullPtr,
    /// The SDK wrote the frame through this receiver.
    Receiver(Arc<RawReceiver>),
    /// The SDK wrote the frame through this sender.
    Sender(Arc<RawSender>),
    /// A buffer of the caller's.
    Box(Vec<u8>),
    /// A text of the caller's.
    CString(CString),
}

/// What is left to do natively once a frame has let go of its memory.
#[derive(Debug)]
pub enum BufferRelease {
    /// Nothing: there was no memory, or it was the caller's and is gone.
    Done,
    /// The memory is the SDK's: free it through this receiver, then give up
    /// the share of the receiver.
    FreeWithReceiver(Arc<RawReceiver>),
    /// The memory is the SDK's: free it through this sender, then give up
    /// the share of the sender.
    FreeWithSender(Arc<RawSender>),
}

/// What the states of a frame's memory allow. The SDK may write a frame
/// exactly when it has no memory, and everything else can be read. Only
/// memory of the caller may be changed: memory of the SDK can be read, but
/// not written.
pub proof fn lemma_guard_states(guard: FrameDataDropGuard)
    ensures
        guard.writable() <==> guard is NullPtr,
        guard.readable() <==> !guard.writable(),
        guard.mutable() <==> guard.readable() && !guard.from_sdk(),
        guard.from_sdk() ==> guard.readable() && !guard.mutable(),
        guard.buffer() is Some ==> guard.mutable(),
        guard.release_of() is Done <==> !guard.from_sdk(),
{
}

/// `Vec::as_mut_slice` hands out the whole vector as a mutable slice. A
/// slice can be written but neither grown nor shrunk, so whatever the holder
/// of the slice does, the vector keeps its length.
#[verifier::external_body]
fn vec_as_mut_slice(vec: &mut Vec<u8>) -> (slice: &mut [u8])
    ensures
        slice@ == old(vec)@,
        final(vec)@ == final(slice)@,
        final(slice)@.len() == slice@.len(),
    no_unwind
{
    vec.as_mut_slice()
}

/// A buffer of `len` zero bytes.
pub open spec fn zeros(len: nat) -> Seq<u8> {
    Seq::new(len, |i: int| 0u8)
}

impl FrameDataDropGuard {
    /// The SDK may write into the frame.
    pub open spec fn writable(&self) -> bool {
        self is NullPtr
    }

    /// The frame holds something to read or to send.
    pub open spec fn readable(&self) -> bool {
        !(self is NullPtr)
    }

    /// The memory belongs to the SDK.
    pub open spec fn from_sdk(&self) -> bool {
        self is Receiver || self is Sender
    }

    /// The memory belongs to the caller, who may change it.
    pub open spec fn mutable(&self) -> bool {
        self is Box || self is CString
    }

    /// The bytes of the caller's buffer, if that is what the frame holds.
    pub open spec fn buffer(&self) -> Option<Seq<u8>> {
        match self {
            FrameDataDropGuard::Box(buf) => Some(buf@),
            _ => None,
        }
    }

    /// Why the SDK may not write into a frame that has memory.
    pub open spec fn busy_reason(&self) -> Seq<char> {
        match self {
            FrameDataDropGuard::Receiver(_) => "Already written by receiver"@,
            FrameDataDropGuard::Sender(_) => "Already written by sender"@,
            FrameDataDropGuard::Box(_) => "Data is Boxed, intended to be sent"@,
            _ => "Data is CString, intended to be sent"@,
        }
    }

    /// What is left to do natively when this state is released.
    pub open spec fn release_of(self) -> BufferRelease {
        match self {
            FrameDataDropGuard::Receiver(recv) => BufferRelease::FreeWithReceiver(recv),
            FrameDataDropGuard::Sender(sender) => BufferRelease::FreeWithSender(sender),
            _ => BufferRelease::Done,
        }
    }

    /// Allocates a new buffer of `size` zero bytes.
    pub fn new_boxed(size: usize) -> (guard: FrameDataDropGuard)
        ensures
            guard.buffer() == Some(zeros(size as nat)),
            guard.mutable(),
            guard.readable(),
            !guard.writable(),
    {
        let buf = vec![0u8; size];
        assert(buf@ =~= zeros(size as nat));
        FrameDataDropGuard::Box(buf)
    }

    /// Check if the frame is writable by FFI (=it is a NullPtr)
    pub fn is_ffi_writable(&self) -> (b: bool)
        ensures
            b == self.writable(),
    {
        matches!(self, FrameDataDropGuard::NullPtr)
    }

    /// Check if the frame is readable by FFI (=it is not a NullPtr)
    pub fn is_ffi_readable(&self) -> (b: bool)
        ensures
            b == self.readable(),
    {
        !matches!(self, FrameDataDropGuard::NullPtr)
    }

    /// Check if the frame is allocated (=it is not a NullPtr)
    pub fn is_allocated(&self) -> (b: bool)
        ensures
            b == self.readable(),
    {
        !matches!(self, FrameDataDropGuard::NullPtr)
    }

    pub fn is_from_sdk(&self) -> (b: bool)
        ensures
            b == self.from_sdk(),
    {
        matches!(self, FrameDataDropGuard::Receiver(_) | FrameDataDropGuard::Sender(_))
    }

    /// Checks if it is safe to write into the frame data by user code
    pub fn is_mut(&self) -> (b: bool)
        ensures
            b == self.mutable(),
    {
        matches!(self, FrameDataDropGuard::Box(_) | FrameDataDropGuard::CString(_))
    }

    /// Says why the SDK may not write into the frame.
    pub fn reason_for_not_ffi_writable(&self) -> (reason: &'static str)
        requires
            !self.writable(),
        ensures
            reason@ == self.busy_reason(),
    {
        match self {
            FrameDataDropGuard::Receiver(_) => "Already written by receiver",
            FrameDataDropGuard::Sender(_) => "Already written by sender",
            FrameDataDropGuard::Box(_) => "Data is Boxed, intended to be sent",
            _ => "Data is CString, intended to be sent",
        }
    }

    /// Says why the frame cannot be read or sent.
    pub fn reason_for_not_ffi_readable(&self) -> (reason: &'static str)
        requires
            !self.readable(),
        ensures
            reason@ == "Frame is not allocated"@,
    {
        "Frame is not allocated"
    }

    /// Records that the SDK wrote the frame through `sender`.
    pub fn from_sender(&mut self, sender: Arc<RawSender>)
        requires
            old(self).writable(),
        ensures
            *final(self) == FrameDataDropGuard::Sender(sender),
    {
        *self = FrameDataDropGuard::Sender(sender);
    }

    /// Records that the SDK wrote the frame through `recv`.
    pub fn from_receiver(&mut self, recv: Arc<RawReceiver>)
        requires
            old(self).writable(),
        ensures
            *final(self) == FrameDataDropGuard::Receiver(recv),
    {
        *self = FrameDataDropGuard::Receiver(recv);
    }

    /// Hands out the caller's buffer to be written, if that is what the
    /// frame holds. The buffer keeps its size.
    pub fn boxed_mut(&mut self) -> (bytes: Option<&mut [u8]>)
        ensures
            match bytes {
                Some(slice) => {
                    &&& *old(self) matches FrameDataDropGuard::Box(buf)
                    &&& slice@ == buf@
                    &&& *final(self) matches FrameDataDropGuard::Box(written)
                    &&& written@ == final(slice)@
                    &&& final(slice)@.len() == slice@.len()
                },
                None => !(*old(self) is Box) && *final(self) == *old(self),
            },
        no_unwind
    {
        match self {
            FrameDataDropGuard::Box(buf) => Some(vec_as_mut_slice(buf)),
            _ => None,
        }
    }

    /// Lets go of the memory. Memory of the caller is gone with the call;
    /// memory of the SDK is handed out together with the instance that has to
    /// free it. Afterwards the frame has no memory, so a second call has
    /// nothing to free.
    pub fn drop_buffer(&mut self) -> (release: BufferRelease)
        ensures
            *final(self) == FrameDataDropGuard::NullPtr,
            final(self).writable(),
            final(self).buffer() is None,
            release == old(self).release_of(),
    {
        let mut held = FrameDataDropGuard::NullPtr;
        core::mem::swap(self, &mut held);
        match held {
            FrameDataDropGuard::Receiver(recv) => BufferRelease::FreeWithReceiver(recv),
            FrameDataDropGuard::Sender(sender) => BufferRelease::FreeWithSender(sender),
            _ => BufferRelease::Done,
        }
    }
}

} // verus!
