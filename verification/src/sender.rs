//! NDI Sender

use vstd::prelude::*;
use vstd::string::StringSliceAdditionalSpecFns;
use std::sync::Arc;
use std::time::Duration;
use crate::blocking_update::BlockingUpdate;
use crate::enums::NDIRecvType;
use crate::frame::RawFrame;
use crate::frame::audio::{AudioFrame, NDIRawAudioFrame};
use crate::frame::drop_guard::FrameDataDropGuard;
use crate::frame::generic::{FFIReadablePtrError, NDIFrame};
use crate::frame::metadata::{MetadataFrame, NDIRawMetadataFrame};
use crate::frame::video::{NDIRawVideoFrame, VideoFrame};
use crate::source::{NDIRawSource, NDISourceRef};
use crate::tally::Tally;
use crate::util::{
    CString, MAX_SOURCE_NAME_BYTES, NulError, arc_into_inner, duration_to_ms, first_nul, nul_free,
    timeout_millis,
};

verus! {

/// The native send instance: a non-null address that only the SDK reads.
/// It is shared between the sender and every metadata frame whose memory
/// belongs to it, so that the instance outlives them all.
#[derive(Debug)]
pub struct RawSender {
    handle: usize,
}

impl RawSender {
    #[verifier::type_invariant]
    closed spec fn non_null(&self) -> bool {
        self.handle != 0
    }

    /// The address of the native instance.
    pub closed spec fn addr(&self) -> usize {
        self.handle
    }

    /// Takes the address that the SDK returned on creation. A null address
    /// is no instance.
    pub fn new(handle: usize) -> (made: Option<RawSender>)
        ensures
            match made {
                Some(raw) => handle != 0 && raw.addr() == handle,
                None => handle == 0,
            },
    {
        if handle == 0 {
            None
        } else {
            Some(RawSender { handle })
        }
    }

    /// The address to hand to the SDK. It is never null.
    pub fn address(&self) -> (ptr: usize)
        ensures
            ptr == self.addr(),
            ptr != 0,
    {
        proof {
            use_type_invariant(self);
        }
        self.handle
    }

    /// Gives up one share of the instance. Returns the address to destroy
    /// if this was the last share; the instance is otherwise still in use,
    /// and `None` is returned.
    pub fn release(this: Arc<RawSender>) -> (last: Option<usize>)
        ensures
            last matches Some(ptr) ==> ptr == this.addr() && ptr != 0,
    {
        RawSender::to_destroy(arc_into_inner(this))
    }

    /// Says what is to be destroyed once a share has been given up: the
    /// instance, if the share was the last and the instance came out of it,
    /// and nothing otherwise.
    pub fn to_destroy(last: Option<RawSender>) -> (ptr: Option<usize>)
        ensures
            ptr == match last {
                Some(raw) => Some(raw.addr()),
                None => None,
            },
            ptr matches Some(p) ==> p != 0,
    {
        match last {
            Some(raw) => Some(raw.address()),
            None => None,
        }
    }
}

/// Builder for [`NDISender`]
#[non_exhaustive]
#[derive(Debug)]
pub struct NDISenderBuilder {
    pub name: Option<CString>,
    pub groups: Option<CString>,
    pub clock_video: bool,
    pub clock_audio: bool,
}

/// What the SDK is told when a sender is created.
#[derive(Debug)]
pub struct SendCreateOptions<'a> {
    /// The name of the sender; without one the SDK picks one.
    pub p_ndi_name: Option<&'a CString>,
    /// The groups of the sender, separated by commas; without any the
    /// SDK's defaults hold.
    pub p_groups: Option<&'a CString>,
    /// Whether sending video waits for the frame rate.
    pub clock_video: bool,
    /// Whether sending audio waits for the sample rate.
    pub clock_audio: bool,
}

/// Why a text is no name of a sender.
#[non_exhaustive]
#[derive(Debug, Clone, Copy, PartialEq, Eq, Structural)]
pub enum SenderNameError {
    /// The name holds a zero byte.
    NulError(NulError),
    /// The name is longer than the SDK allows. It is not cut short.
    TooLong,
}

impl Default for NDISenderBuilder {
    fn default() -> (builder: NDISenderBuilder)
        ensures
            builder.name is None,
            builder.groups is None,
            !builder.clock_video,
            !builder.clock_audio,
    {
        NDISenderBuilder { name: None, groups: None, clock_video: false, clock_audio: false }
    }
}

impl NDISenderBuilder {
    /// A builder without name and groups, that clocks neither video nor
    /// audio.
    pub fn new() -> (builder: NDISenderBuilder)
        ensures
            builder.name is None,
            builder.groups is None,
            !builder.clock_video,
            !builder.clock_audio,
    {
        NDISenderBuilder { name: None, groups: None, clock_video: false, clock_audio: false }
    }

    /// Sets the name for the sender.
    ///
    /// The SDK limits the name of a source to 253 bytes. A longer name is
    /// refused and not cut short; so is one that holds a zero byte.
    pub fn name(self, name: &str) -> (named: Result<NDISenderBuilder, SenderNameError>)
        ensures
            match named {
                Ok(builder) => {
                    &&& nul_free(name.spec_bytes())
                    &&& name.spec_bytes().len() <= MAX_SOURCE_NAME_BYTES
                    &&& builder.name matches Some(text) && text@ == name.spec_bytes()
                    &&& builder.groups == self.groups
                    &&& builder.clock_video == self.clock_video
                    &&& builder.clock_audio == self.clock_audio
                },
                Err(SenderNameError::NulError(e)) => {
                    &&& !nul_free(name.spec_bytes())
                    &&& e.position() == first_nul(name.spec_bytes())
                },
                Err(SenderNameError::TooLong) => {
                    &&& nul_free(name.spec_bytes())
                    &&& name.spec_bytes().len() > MAX_SOURCE_NAME_BYTES
                },
            },
    {
        let text = match CString::new(name) {
            Ok(text) => text,
            Err(e) => {
                return Err(SenderNameError::NulError(e));
            },
        };
        if text.count_bytes() > MAX_SOURCE_NAME_BYTES {
            return Err(SenderNameError::TooLong);
        }
        let mut builder = self;
        builder.name = Some(text);
        Ok(builder)
    }

    /// Sets the groups for the sender: the sets of sources that the sender
    /// places itself into, separated by commas. The text must hold no zero
    /// byte.
    pub fn groups(self, groups: &str) -> (builder: NDISenderBuilder)
        requires
            nul_free(groups.spec_bytes()),
        ensures
            builder.groups matches Some(text) && text@ == groups.spec_bytes(),
            builder.name == self.name,
            builder.clock_video == self.clock_video,
            builder.clock_audio == self.clock_audio,
    {
        let mut builder = self;
        builder.groups = match CString::new(groups) {
            Ok(text) => Some(text),
            Err(_) => None,
        };
        builder
    }

    /// When enabled the SDK will limit the frame rate for video frames.
    /// The send function will block until the next frame is ready to be sent.
    pub fn clock_video(self, clock_video: bool) -> (builder: NDISenderBuilder)
        ensures
            builder.clock_video == clock_video,
            builder.name == self.name,
            builder.groups == self.groups,
            builder.clock_audio == self.clock_audio,
    {
        let mut builder = self;
        builder.clock_video = clock_video;
        builder
    }

    /// When enabled the SDK will limit the frame rate for audio frames.
    /// The send function will block until the next frame is ready to be sent.
    pub fn clock_audio(self, clock_audio: bool) -> (builder: NDISenderBuilder)
        ensures
            builder.clock_audio == clock_audio,
            builder.name == self.name,
            builder.groups == self.groups,
            builder.clock_video == self.clock_video,
    {
        let mut builder = self;
        builder.clock_audio = clock_audio;
        builder
    }

    /// Says what the SDK is told to create the sender.
    pub fn create_options(&self) -> (options: SendCreateOptions<'_>)
        ensures
            match options.p_ndi_name {
                Some(name) => self.name == Some(*name),
                None => self.name is None,
            },
            match options.p_groups {
                Some(groups) => self.groups == Some(*groups),
                None => self.groups is None,
            },
            options.clock_video == self.clock_video,
            options.clock_audio == self.clock_audio,
    {
        SendCreateOptions {
            p_ndi_name: self.name.as_ref(),
            p_groups: self.groups.as_ref(),
            clock_video: self.clock_video,
            clock_audio: self.clock_audio,
        }
    }

    /// Takes the address that the SDK returned for the options of
    /// [`NDISenderBuilder::create_options`]. A null address means that no
    /// sender was created.
    pub fn build(self, handle: usize) -> (built: Result<NDISender, NDISenderBuilderError>)
        ensures
            match built {
                Ok(sender) => handle != 0 && sender.handle().addr() == handle,
                Err(NDISenderBuilderError::CreationFailed) => handle == 0,
            },
    {
        match RawSender::new(handle) {
            Some(raw) => Ok(NDISender { handle: Arc::new(raw) }),
            None => Err(NDISenderBuilderError::CreationFailed),
        }
    }
}

/// Why no sender was built.
#[non_exhaustive]
#[derive(Debug, Clone, Copy, PartialEq, Eq, Structural)]
pub enum NDISenderBuilderError {
    /// The SDK returned no instance.
    CreationFailed,
}

/// Why a frame was not sent.
#[derive(Debug, PartialEq, Eq)]
pub enum SendFrameError {
    /// The frame holds nothing to send; the text says why.
    NotSendable(&'static str),
}

/// The video frame that the SDK may still be reading.
///
/// An asynchronous send returns before the SDK has read the frame. Until the
/// next send or flush has returned, the memory of the frame has to stay as
/// it is. The slot holds a share of the frame for that time, so that the
/// frame cannot go away under the SDK. It is a sender's one piece of state
/// that changes; a sender that is shared keeps it behind a lock.
#[derive(Debug)]
pub struct InTransmission<Frame> {
    frame: Option<Arc<Frame>>,
}

impl<Frame> InTransmission<Frame> {
    /// The frame that the SDK may still be reading, if any.
    pub closed spec fn in_flight(&self) -> Option<Arc<Frame>> {
        self.frame
    }

    /// A slot of a sender that has sent nothing yet.
    pub fn new() -> (slot: InTransmission<Frame>)
        ensures
            slot.in_flight() is None,
    {
        InTransmission { frame: None }
    }

    /// Tests whether a frame may still be read by the SDK.
    pub fn is_busy(&self) -> (b: bool)
        ensures
            b == (self.in_flight() is Some),
    {
        self.frame.is_some()
    }

    /// Records which frame the SDK reads from now on, once the native call
    /// that sent or flushed has returned. The share of the frame that was
    /// held until now is handed out: it is the caller's to drop, and not
    /// before this call.
    pub fn write_in_transmission(&mut self, frame: Option<Arc<Frame>>) -> (previous: Option<
        Arc<Frame>,
    >)
        ensures
            final(self).in_flight() == frame,
            previous == old(self).in_flight(),
    {
        let mut held = frame;
        core::mem::swap(&mut self.frame, &mut held);
        held
    }
}

/// What a sender's capture call left behind: the frame type that it
/// returned, and the metadata descriptor as it stands after the call.
#[derive(Debug)]
pub struct SenderCaptureOutcome {
    /// The frame type code that the call returned.
    pub frame_type: i32,
    /// The metadata descriptor that was handed over.
    pub metadata: NDIRawMetadataFrame,
}

impl SenderCaptureOutcome {
    /// What the call says it delivered.
    pub open spec fn kind(&self) -> NDIRecvType {
        NDIRecvType::of_code(self.frame_type)
    }

    /// The outcome is one that a sender can have: it delivered no video
    /// and no audio, and where it delivered nothing that this library
    /// knows, it left the descriptor alone.
    pub open spec fn possible(&self) -> bool {
        &&& !(self.kind() is Video)
        &&& !(self.kind() is Audio)
        &&& !(self.kind() is Metadata || self.kind() is NoFrame) ==> self.metadata.unwritten()
    }

    /// Tests whether the outcome is one that a sender can have. A caller
    /// has to stop if it is not.
    pub fn is_possible(&self) -> (b: bool)
        ensures
            b == self.possible(),
    {
        match NDIRecvType::from_ffi(self.frame_type) {
            NDIRecvType::Video | NDIRecvType::Audio => false,
            NDIRecvType::Metadata | NDIRecvType::NoFrame => true,
            _ => self.metadata.is_unwritten(),
        }
    }
}

/// A NDI sender that can send frames to a receiver.
///
/// The native instance is shared with every metadata frame that was
/// received through it: it is not to be destroyed before the sender and all
/// those frames have given up their share.
#[derive(Debug)]
pub struct NDISender {
    handle: Arc<RawSender>,
}

impl NDISender {
    /// The native instance of the sender.
    pub closed spec fn handle(&self) -> Arc<RawSender> {
        self.handle
    }

    /// The address to hand to the SDK.
    pub fn address(&self) -> (ptr: usize)
        ensures
            ptr == self.handle().addr(),
            ptr != 0,
    {
        self.handle.address()
    }

    /// Gives up the sender's share of the native instance. Returns the
    /// address to destroy if no frame holds a share any more. A video frame
    /// that is still in transmission has to be flushed before.
    pub fn close(self) -> (last: Option<usize>)
        ensures
            last matches Some(ptr) ==> ptr == self.handle().addr() && ptr != 0,
    {
        RawSender::release(self.handle)
    }

    /// Decides whether a video frame can be sent, and hands out the
    /// descriptor to send. The call that sends it blocks until the SDK has
    /// read the frame; after it nothing is in transmission any more.
    pub fn send_video_sync<'a>(&self, frame: &'a VideoFrame) -> (sendable: Result<
        &'a NDIRawVideoFrame,
        SendFrameError,
    >)
        ensures
            match sendable {
                Ok(raw) => frame.memory().readable() && *raw == frame.descriptor(),
                Err(SendFrameError::NotSendable(reason)) => {
                    &&& !frame.memory().readable()
                    &&& reason@ == "Frame is not allocated"@
                },
            },
    {
        match frame.to_ffi_send_frame_ptr() {
            Ok(raw) => Ok(raw),
            Err(FFIReadablePtrError::NotReadable(desc)) => Err(SendFrameError::NotSendable(desc)),
        }
    }

    /// Decides whether a video frame can be sent without waiting for the
    /// SDK to read it, and hands out the descriptor to send. What is in
    /// transmission is not touched: the frame sent before stays in the slot
    /// until the native call for this one has returned and
    /// [`InTransmission::write_in_transmission`] records this one.
    pub fn send_video_async<'a>(&self, frame: &'a VideoFrame) -> (sendable: Result<
        &'a NDIRawVideoFrame,
        SendFrameError,
    >)
        ensures
            match sendable {
                Ok(raw) => frame.memory().readable() && *raw == frame.descriptor(),
                Err(SendFrameError::NotSendable(reason)) => {
                    &&& !frame.memory().readable()
                    &&& reason@ == "Frame is not allocated"@
                },
            },
    {
        match frame.to_ffi_send_frame_ptr() {
            Ok(raw) => Ok(raw),
            Err(FFIReadablePtrError::NotReadable(desc)) => Err(SendFrameError::NotSendable(desc)),
        }
    }

    /// Accounts for a video frame that was sent and read by the SDK: a
    /// blocking send leaves nothing in transmission. The share of the frame
    /// that was in transmission before is handed out to be dropped.
    pub fn video_sent_sync<Frame>(&self, slot: &mut InTransmission<Frame>) -> (previous: Option<
        Arc<Frame>,
    >)
        ensures
            final(slot).in_flight() is None,
            previous == old(slot).in_flight(),
    {
        slot.write_in_transmission(None)
    }

    /// Accounts for a video frame that was handed to the SDK without
    /// waiting: the SDK may read it from now on, so the slot keeps a share of
    /// it. The share of the frame that was in transmission before is handed
    /// out to be dropped: the SDK is done with that frame once the call for
    /// this one has returned.
    pub fn video_sent_async<Frame>(
        &self,
        slot: &mut InTransmission<Frame>,
        frame: Arc<Frame>,
    ) -> (previous: Option<Arc<Frame>>)
        ensures
            final(slot).in_flight() == Some(frame),
            previous == old(slot).in_flight(),
    {
        slot.write_in_transmission(Some(frame))
    }

    /// Ends the transmission of the frame that was sent last, once the
    /// native call that waits for the SDK has returned. The share of the
    /// frame is handed out to be dropped.
    pub fn flush_async_video<Frame>(&self, slot: &mut InTransmission<Frame>) -> (previous: Option<
        Arc<Frame>,
    >)
        ensures
            final(slot).in_flight() is None,
            previous == old(slot).in_flight(),
    {
        slot.write_in_transmission(None)
    }

    /// Decides whether an audio frame can be sent, and hands out the
    /// descriptor to send.
    pub fn send_audio<'a>(&self, frame: &'a AudioFrame) -> (sendable: Result<
        &'a NDIRawAudioFrame,
        SendFrameError,
    >)
        ensures
            match sendable {
                Ok(raw) => frame.memory().readable() && *raw == frame.descriptor(),
                Err(SendFrameError::NotSendable(reason)) => {
                    &&& !frame.memory().readable()
                    &&& reason@ == "Frame is not allocated"@
                },
            },
    {
        match frame.to_ffi_send_frame_ptr() {
            Ok(raw) => Ok(raw),
            Err(FFIReadablePtrError::NotReadable(desc)) => Err(SendFrameError::NotSendable(desc)),
        }
    }

    /// Decides whether a metadata frame can be sent, and hands out the
    /// descriptor to send.
    pub fn send_metadata<'a>(&self, frame: &'a MetadataFrame) -> (sendable: Result<
        &'a NDIRawMetadataFrame,
        SendFrameError,
    >)
        ensures
            match sendable {
                Ok(raw) => frame.memory().readable() && *raw == frame.descriptor(),
                Err(SendFrameError::NotSendable(reason)) => {
                    &&& !frame.memory().readable()
                    &&& reason@ == "Frame is not allocated"@
                },
            },
    {
        match frame.to_ffi_send_frame_ptr() {
            Ok(raw) => Ok(raw),
            Err(FFIReadablePtrError::NotReadable(desc)) => Err(SendFrameError::NotSendable(desc)),
        }
    }

    /// Decides whether a metadata frame can be added to those that are sent
    /// on every connection, and hands out the descriptor to add.
    pub fn add_connection_metadata<'a>(&self, meta: &'a MetadataFrame) -> (addable: Result<
        &'a NDIRawMetadataFrame,
        SendFrameError,
    >)
        ensures
            match addable {
                Ok(raw) => meta.memory().readable() && *raw == meta.descriptor(),
                Err(SendFrameError::NotSendable(reason)) => {
                    &&& !meta.memory().readable()
                    &&& reason@ == "Frame is not allocated"@
                },
            },
    {
        match meta.to_ffi_send_frame_ptr() {
            Ok(raw) => Ok(raw),
            Err(FFIReadablePtrError::NotReadable(desc)) => Err(SendFrameError::NotSendable(desc)),
        }
    }

    /// Says what a capture call for metadata is to be handed: the timeout
    /// in milliseconds, clamped to 32 bits. A frame that still holds memory
    /// cannot take what a receiver sends; no call is made for it.
    pub fn capture_request(&self, meta: &MetadataFrame, timeout: Duration) -> (request: Result<
        u32,
        (),
    >)
        ensures
            request == if meta.memory().writable() {
                Ok::<u32, ()>(timeout_millis(timeout))
            } else {
                Err::<u32, ()>(())
            },
    {
        if meta.is_ffi_writable() {
            Ok(duration_to_ms(timeout))
        } else {
            Err(())
        }
    }

    /// Accounts for what a capture call for metadata left behind.
    ///
    /// A frame that was delivered takes the descriptor that the SDK wrote,
    /// and its memory from now on belongs to this sender, which gets one more
    /// holder. Nothing changes where the timeout was reached, nor where the
    /// SDK returned a frame type that this library does not know, which is an
    /// error.
    pub fn recv_metadata(&self, meta: &mut MetadataFrame, outcome: SenderCaptureOutcome) -> (received:
        Result<Option<()>, ()>)
        requires
            old(meta).memory().writable(),
            outcome.possible(),
        ensures
            received == match outcome.kind() {
                NDIRecvType::Metadata => Ok::<Option<()>, ()>(Some(())),
                NDIRecvType::NoFrame => Ok::<Option<()>, ()>(None),
                _ => Err::<Option<()>, ()>(()),
            },
            if outcome.kind() is Metadata {
                &&& final(meta).descriptor() == outcome.metadata
                &&& final(meta).memory() == FrameDataDropGuard::Sender(self.handle())
            } else {
                *final(meta) == *old(meta)
            },
    {
        let SenderCaptureOutcome { frame_type, metadata } = outcome;
        match NDIRecvType::from_ffi(frame_type) {
            NDIRecvType::Metadata => {
                *meta = NDIFrame {
                    raw: metadata,
                    alloc: FrameDataDropGuard::Sender(self.handle.clone()),
                };
                Ok(Some(()))
            },
            NDIRecvType::NoFrame => Ok(None),
            _ => Err(()),
        }
    }

    /// Reads the tally that the SDK reported.
    pub fn get_tally(&self, on_program: bool, on_preview: bool) -> (tally: Tally)
        ensures
            tally == (Tally { program: on_program, preview: on_preview }),
    {
        Tally::from_ffi(on_program, on_preview)
    }

    /// Reads the tally that the SDK reported after waiting for a change,
    /// and whether it changed before the timeout was reached.
    pub fn get_tally_update(&self, on_program: bool, on_preview: bool, changed: bool) -> (update:
        BlockingUpdate<Tally>)
        ensures
            update.current() == (Tally { program: on_program, preview: on_preview }),
            update.changed() == changed,
    {
        BlockingUpdate::new(Tally::from_ffi(on_program, on_preview), changed)
    }

    /// Reads the number of connections that the SDK reported after
    /// waiting for a change. The SDK reports no negative number.
    pub fn get_num_connections_update(&self, reported: i32) -> (connections: usize)
        requires
            reported >= 0,
        ensures
            connections == reported,
    {
        reported as usize
    }

    /// Refers to the description of this sender that the SDK returned. It
    /// includes the name under which the sender is found.
    pub fn get_source<'a>(&'a self, source: &'a NDIRawSource) -> (described: NDISourceRef<'a>)
        requires
            source.p_ndi_name is Some,
        ensures
            Some(described.texts()) == NDISourceRef::texts_of(source),
    {
        NDISourceRef::from(source)
    }
}

} // verus!
