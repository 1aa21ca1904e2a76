//! NDI Receiver

use vstd::prelude::*;
use vstd::string::StringSliceAdditionalSpecFns;
use std::sync::Arc;
use std::time::Duration;
use crate::enums::{NDIBandwidthMode, NDIPreferredColorFormat, NDIRecvError, NDIRecvType};
use crate::frame::RawFrame;
use crate::frame::audio::{AudioFrame, NDIRawAudioFrame};
use crate::frame::drop_guard::FrameDataDropGuard;
use crate::frame::generic::{FFIReadablePtrError, FFIWritablePtrError, NDIFrame};
use crate::frame::metadata::{MetadataFrame, NDIRawMetadataFrame};
use crate::frame::video::{NDIRawVideoFrame, VideoFrame};
use crate::source::{NDISourceLike, SourceDescriptor};
use crate::util::{CString, arc_into_inner, duration_to_ms, nul_free, timeout_millis};

verus! {

/// The native receive instance: a non-null address that only the SDK reads.
/// It is shared between the receiver and every frame whose memory belongs
/// to it, so that the instance outlives them all.
#[derive(Debug)]
pub struct RawReceiver {
    handle: usize,
}

impl RawReceiver {
    #[verifier::type_invariant]
    closed spec fn non_null(&self) -> bool {
        self.handle != 0
    }

    /// The address of the native instance.
    pub closed spec fn addr(&self) -> usize {
        self.handle
    }

    /// Takes the address that the SDK returned on creation. A null address
    /// is no instance.
    pub fn new(handle: usize) -> (made: Option<RawReceiver>)
        ensures
            match made {
                Some(raw) => handle != 0 && raw.addr() == handle,
                None => handle == 0,
            },
    {
        if handle == 0 {
            None
        } else {
            Some(RawReceiver { handle })
        }
    }

    /// The address to hand to the SDK. It is never null.
    pub fn address(&self) -> (ptr: usize)
        ensures
            ptr == self.addr(),
            ptr != 0,
    {
        proof {
            use_type_invariant(self);
        }
        self.handle
    }

    /// Gives up one share of the instance. Returns the address to destroy
    /// if this was the last share; the instance is otherwise still in use,
    /// and `None` is returned.
    pub fn release(this: Arc<RawReceiver>) -> (last: Option<usize>)
        ensures
            last matches Some(ptr) ==> ptr == this.addr() && ptr != 0,
    {
        RawReceiver::to_destroy(arc_into_inner(this))
    }

    /// Says what is to be destroyed once a share has been given up: the
    /// instance, if the share was the last and the instance came out of it,
    /// and nothing otherwise.
    pub fn to_destroy(last: Option<RawReceiver>) -> (ptr: Option<usize>)
        ensures
            ptr == match last {
                Some(raw) => Some(raw.addr()),
                None => None,
            },
            ptr matches Some(p) ==> p != 0,
    {
        match last {
            Some(raw) => Some(raw.address()),
            None => None,
        }
    }
}

/// Builder for [`NDIReceiver`]
#[non_exhaustive]
#[derive(Debug)]
pub struct NDIReceiverBuilder<Source: NDISourceLike> {
    pub source: Option<Source>,
    pub name: Option<CString>,
    pub color_format: NDIPreferredColorFormat,
    pub bandwidth: NDIBandwidthMode,
    pub allow_fielded_video: bool,
}

/// What the SDK is told when a receiver is created.
#[derive(Debug)]
pub struct RecvCreateOptions<'a> {
    /// The name of the receiver, if it has one.
    pub p_ndi_recv_name: Option<&'a CString>,
    /// The source to connect to; without one, both pointers of the SDK's
    /// descriptor are null.
    pub source_to_connect_to: Option<SourceDescriptor<'a>>,
    /// Code of the preferred colour format.
    pub color_format: i32,
    /// Code of the bandwidth mode.
    pub bandwidth: i32,
    /// Whether fielded video is wanted.
    pub allow_video_fields: bool,
}

impl<Source: NDISourceLike> Default for NDIReceiverBuilder<Source> {
    fn default() -> (builder: Self)
        ensures
            builder.source is None,
            builder.name is None,
            builder.color_format == NDIPreferredColorFormat::Fastest,
            builder.bandwidth == NDIBandwidthMode::Default,
            !builder.allow_fielded_video,
    {
        NDIReceiverBuilder {
            source: None,
            name: None,
            color_format: NDIPreferredColorFormat::Fastest,
            bandwidth: NDIBandwidthMode::Default,
            allow_fielded_video: false,
        }
    }
}

impl<Source: NDISourceLike> NDIReceiverBuilder<Source> {
    /// A builder with no source, no name, the fastest colour format, full
    /// bandwidth and progressive video only.
    pub fn new() -> (builder: Self)
        ensures
            builder.source is None,
            builder.name is None,
            builder.color_format == NDIPreferredColorFormat::Fastest,
            builder.bandwidth == NDIBandwidthMode::Default,
            !builder.allow_fielded_video,
    {
        NDIReceiverBuilder {
            source: None,
            name: None,
            color_format: NDIPreferredColorFormat::Fastest,
            bandwidth: NDIBandwidthMode::Default,
            allow_fielded_video: false,
        }
    }

    /// Sets the source to connect to. Can be left out to select the source later.
    pub fn source(self, source: Source) -> (builder: Self)
        ensures
            builder.source == Some(source),
            builder.name == self.name,
            builder.color_format == self.color_format,
            builder.bandwidth == self.bandwidth,
            builder.allow_fielded_video == self.allow_fielded_video,
    {
        let mut builder = self;
        builder.source = Some(source);
        builder
    }

    /// Sets the receiver name. The name must hold no zero byte.
    pub fn name(self, name: &str) -> (builder: Self)
        requires
            nul_free(name.spec_bytes()),
        ensures
            builder.name matches Some(text) && text@ == name.spec_bytes(),
            builder.source == self.source,
            builder.color_format == self.color_format,
            builder.bandwidth == self.bandwidth,
            builder.allow_fielded_video == self.allow_fielded_video,
    {
        let mut builder = self;
        builder.name = match CString::new(name) {
            Ok(text) => Some(text),
            Err(_) => None,
        };
        builder
    }

    /// Sets the preferred color format for the receiver.
    /// Unless you need a specific color format, always use
    /// [`NDIPreferredColorFormat::Fastest`]
    pub fn color_format(self, color_format: NDIPreferredColorFormat) -> (builder: Self)
        ensures
            builder.color_format == color_format,
            builder.source == self.source,
            builder.name == self.name,
            builder.bandwidth == self.bandwidth,
            builder.allow_fielded_video == self.allow_fielded_video,
    {
        let mut builder = self;
        builder.color_format = color_format;
        builder
    }

    /// Sets the bandwidth mode for the receiver.
    /// Can be used to use reduced bandwidth for multi-views or metadata-only
    pub fn bandwidth(self, bandwidth: NDIBandwidthMode) -> (builder: Self)
        ensures
            builder.bandwidth == bandwidth,
            builder.source == self.source,
            builder.name == self.name,
            builder.color_format == self.color_format,
            builder.allow_fielded_video == self.allow_fielded_video,
    {
        let mut builder = self;
        builder.bandwidth = bandwidth;
        builder
    }

    /// Sets whether the receiver should allow fielded video.
    /// Default is false, only progressive video will be received.
    pub fn allow_fielded_video(self, allow: bool) -> (builder: Self)
        ensures
            builder.allow_fielded_video == allow,
            builder.source == self.source,
            builder.name == self.name,
            builder.color_format == self.color_format,
            builder.bandwidth == self.bandwidth,
    {
        let mut builder = self;
        builder.allow_fielded_video = allow;
        builder
    }

    /// Says what the SDK is told to create the receiver.
    pub fn create_options(&self) -> (options: RecvCreateOptions<'_>)
        ensures
            match options.p_ndi_recv_name {
                Some(name) => self.name == Some(*name),
                None => self.name is None,
            },
            match options.source_to_connect_to {
                Some(d) => self.source.rendered() == Some(d.texts()),
                None => self.source.rendered() is None,
            },
            options.color_format == self.color_format.code(),
            options.bandwidth == self.bandwidth.code(),
            options.allow_video_fields == self.allow_fielded_video,
    {
        RecvCreateOptions {
            p_ndi_recv_name: self.name.as_ref(),
            source_to_connect_to: self.source.with_descriptor(),
            color_format: self.color_format.to_ffi(),
            bandwidth: self.bandwidth.to_ffi(),
            allow_video_fields: self.allow_fielded_video,
        }
    }

    /// Takes the address that the SDK returned for the options of
    /// [`NDIReceiverBuilder::create_options`]. A null address means that no
    /// receiver was created.
    pub fn build(self, handle: usize) -> (built: Result<NDIReceiver, NDIReceiverBuilderError>)
        ensures
            match built {
                Ok(receiver) => handle != 0 && receiver.handle().addr() == handle,
                Err(NDIReceiverBuilderError::CreationFailed) => handle == 0,
            },
    {
        match RawReceiver::new(handle) {
            Some(raw) => Ok(NDIReceiver { handle: Arc::new(raw) }),
            None => Err(NDIReceiverBuilderError::CreationFailed),
        }
    }
}

/// Why no receiver was built.
#[non_exhaustive]
#[derive(Debug, Clone, Copy, PartialEq, Eq, Structural)]
pub enum NDIReceiverBuilderError {
    /// The SDK returned no instance.
    CreationFailed,
}

/// What a capture call is handed: which of the three slots, and the
/// timeout.
#[derive(Debug, Clone, Copy, PartialEq, Eq, Structural)]
pub struct CaptureRequest {
    /// A blank video descriptor is handed over.
    pub video: bool,
    /// A blank audio descriptor is handed over.
    pub audio: bool,
    /// A blank metadata descriptor is handed over.
    pub metadata: bool,
    /// The longest time to wait, in milliseconds.
    pub timeout_in_ms: u32,
}

/// What a capture call left behind: the frame type that it returned, and
/// each descriptor that it was handed as it stands after the call.
#[derive(Debug)]
pub struct CaptureOutcome {
    /// The frame type code that the call returned.
    pub frame_type: i32,
    /// The video descriptor, if one was handed over.
    pub video: Option<NDIRawVideoFrame>,
    /// The audio descriptor, if one was handed over.
    pub audio: Option<NDIRawAudioFrame>,
    /// The metadata descriptor, if one was handed over.
    pub metadata: Option<NDIRawMetadataFrame>,
}

impl CaptureOutcome {
    /// What the call says it delivered.
    pub open spec fn kind(&self) -> NDIRecvType {
        NDIRecvType::of_code(self.frame_type)
    }

    /// The call says it delivered a frame of a kind for which it was handed
    /// no descriptor. The SDK has then written somewhere it should not.
    /// `video`, `audio` and `metadata` say which slots were handed over.
    pub open spec fn orphaned(&self, video: bool, audio: bool, metadata: bool) -> bool {
        ||| self.kind() is Video && !(video && self.video is Some)
        ||| self.kind() is Audio && !(audio && self.audio is Some)
        ||| self.kind() is Metadata && !(metadata && self.metadata is Some)
    }

    /// The call has written no descriptor but the one it says it
    /// delivered.
    pub open spec fn untouched_elsewhere(&self) -> bool {
        &&& !(self.kind() is Video) ==> (self.video matches Some(raw) ==> raw.unwritten())
        &&& !(self.kind() is Audio) ==> (self.audio matches Some(raw) ==> raw.unwritten())
        &&& !(self.kind() is Metadata) ==> (self.metadata matches Some(raw) ==> raw.unwritten())
    }

    /// Tests whether the SDK delivered a frame without having been handed a
    /// descriptor for it. A caller has to stop if it did.
    pub fn is_orphaned(&self, request: &CaptureRequest) -> (b: bool)
        ensures
            b == self.orphaned(request.video, request.audio, request.metadata),
    {
        match NDIRecvType::from_ffi(self.frame_type) {
            NDIRecvType::Video => !(request.video && self.video.is_some()),
            NDIRecvType::Audio => !(request.audio && self.audio.is_some()),
            NDIRecvType::Metadata => !(request.metadata && self.metadata.is_some()),
            _ => false,
        }
    }

    /// Tests whether the SDK left alone every descriptor but the one it says
    /// it delivered. A strict caller stops if it did not.
    pub fn is_untouched_elsewhere(&self) -> (b: bool)
        ensures
            b == self.untouched_elsewhere(),
    {
        let kind = NDIRecvType::from_ffi(self.frame_type);
        let video_ok = matches!(kind, NDIRecvType::Video) || match &self.video {
            Some(raw) => raw.is_unwritten(),
            None => true,
        };
        let audio_ok = matches!(kind, NDIRecvType::Audio) || match &self.audio {
            Some(raw) => raw.is_unwritten(),
            None => true,
        };
        let metadata_ok = matches!(kind, NDIRecvType::Metadata) || match &self.metadata {
            Some(raw) => raw.is_unwritten(),
            None => true,
        };
        video_ok && audio_ok && metadata_ok
    }
}

/// A NDI receiver that can receive frames from a source.
///
/// The native instance is shared with every frame that was received through
/// it: it is not to be destroyed before the receiver and all those frames
/// have given up their share.
#[derive(Debug)]
pub struct NDIReceiver {
    handle: Arc<RawReceiver>,
}

/// Why a metadata frame was not sent.
#[non_exhaustive]
#[derive(Debug, Clone, Copy, Hash, PartialEq, Eq)]
pub enum SendMetadataError {
    /// The metadata could not be sent because it is not readable
    NotSendable(&'static str),
    /// The metadata could not be sent because the receiver is not connected
    NotConnected,
}

impl NDIReceiver {
    /// The native instance of the receiver.
    pub closed spec fn handle(&self) -> Arc<RawReceiver> {
        self.handle
    }

    /// What [`NDIReceiver::recv`] returns for a frame type code.
    pub open spec fn verdict(frame_type: i32) -> Result<NDIRecvType, NDIRecvError> {
        match NDIRecvType::of_code(frame_type) {
            NDIRecvType::Unknown => Err(NDIRecvError::UnknownType),
            kind => Ok(kind),
        }
    }

    /// The address to hand to the SDK.
    pub fn address(&self) -> (ptr: usize)
        ensures
            ptr == self.handle().addr(),
            ptr != 0,
    {
        self.handle.address()
    }

    /// Gives up the receiver's share of the native instance. Returns the
    /// address to destroy if no frame holds a share any more.
    pub fn close(self) -> (last: Option<usize>)
        ensures
            last matches Some(ptr) ==> ptr == self.handle().addr() && ptr != 0,
    {
        RawReceiver::release(self.handle)
    }

    /// What a strict caller asks of the slots of a capture call: each frame
    /// that is given has no memory.
    pub open spec fn slots_empty(
        video: Option<VideoFrame>,
        audio: Option<AudioFrame>,
        meta: Option<MetadataFrame>,
    ) -> bool {
        &&& video matches Some(f) ==> f.memory().writable()
        &&& audio matches Some(f) ==> f.memory().writable()
        &&& meta matches Some(f) ==> f.memory().writable()
    }

    /// The memory of the first frame, in the order video, audio, metadata,
    /// that is given to a capture call though it has memory.
    pub open spec fn first_busy(
        video: Option<VideoFrame>,
        audio: Option<AudioFrame>,
        meta: Option<MetadataFrame>,
    ) -> FrameDataDropGuard {
        if video matches Some(f) && !f.memory().writable() {
            video.unwrap().memory()
        } else if audio matches Some(f) && !f.memory().writable() {
            audio.unwrap().memory()
        } else {
            meta.unwrap().memory()
        }
    }

    /// Tests whether each frame that is given to a capture call has no
    /// memory. If one has, the error says what the first of them holds. A
    /// strict caller stops on it; any other goes on, and the frame is passed
    /// over.
    pub fn check_slots(
        &self,
        video: Option<&VideoFrame>,
        audio: Option<&AudioFrame>,
        meta: Option<&MetadataFrame>,
    ) -> (ready: Result<(), FFIWritablePtrError>)
        ensures
            ({
                let v = match video {
                    Some(f) => Some(*f),
                    None => None,
                };
                let a = match audio {
                    Some(f) => Some(*f),
                    None => None,
                };
                let m = match meta {
                    Some(f) => Some(*f),
                    None => None,
                };
                match ready {
                    Ok(()) => Self::slots_empty(v, a, m),
                    Err(FFIWritablePtrError::NotWritable(reason)) => {
                        &&& !Self::slots_empty(v, a, m)
                        &&& reason@ == Self::first_busy(v, a, m).busy_reason()
                    },
                }
            }),
    {
        if let Some(frame) = video {
            if let Err(e) = frame.to_ffi_recv_frame_ptr() {
                return Err(e);
            }
        }
        if let Some(frame) = audio {
            if let Err(e) = frame.to_ffi_recv_frame_ptr() {
                return Err(e);
            }
        }
        if let Some(frame) = meta {
            if let Err(e) = frame.to_ffi_recv_frame_ptr() {
                return Err(e);
            }
        }
        Ok(())
    }

    /// Says what a capture call is to be handed: a blank descriptor for
    /// each frame that is given and has no memory, and the timeout in
    /// milliseconds, clamped to 32 bits. A frame that still holds memory is
    /// passed over as if it had not been given.
    pub fn capture_request(
        &self,
        video: Option<&VideoFrame>,
        audio: Option<&AudioFrame>,
        meta: Option<&MetadataFrame>,
        timeout: Duration,
    ) -> (request: CaptureRequest)
        ensures
            request.video == (video matches Some(f) && f.memory().writable()),
            request.audio == (audio matches Some(f) && f.memory().writable()),
            request.metadata == (meta matches Some(f) && f.memory().writable()),
            request.timeout_in_ms == timeout_millis(timeout),
    {
        CaptureRequest {
            video: match video {
                Some(f) => f.is_ffi_writable(),
                None => false,
            },
            audio: match audio {
                Some(f) => f.is_ffi_writable(),
                None => false,
            },
            metadata: match meta {
                Some(f) => f.is_ffi_writable(),
                None => false,
            },
            timeout_in_ms: duration_to_ms(timeout),
        }
    }

    /// Accounts for what a capture call left behind. Where the call
    /// delivered a frame, its slot is one that was handed over, and `outcome`
    /// holds the descriptor that the SDK wrote for it.
    ///
    /// The frame that the call delivered takes the descriptor that the SDK
    /// wrote, and its memory from now on belongs to this receiver, which gets
    /// one more holder. Every other frame stays as it was. Exactly one frame
    /// changes where a frame was delivered, and none otherwise.
    pub fn recv(
        &self,
        video: Option<&mut VideoFrame>,
        audio: Option<&mut AudioFrame>,
        meta: Option<&mut MetadataFrame>,
        outcome: CaptureOutcome,
    ) -> (received: Result<NDIRecvType, NDIRecvError>)
        requires
            !outcome.orphaned(
                video matches Some(f) && f.memory().writable(),
                audio matches Some(f) && f.memory().writable(),
                meta matches Some(f) && f.memory().writable(),
            ),
        ensures
            received == Self::verdict(outcome.frame_type),
            video matches Some(f) ==> if outcome.kind() is Video {
                &&& final(f).descriptor() == outcome.video.unwrap()
                &&& final(f).memory() == FrameDataDropGuard::Receiver(self.handle())
            } else {
                *final(f) == *f
            },
            audio matches Some(f) ==> if outcome.kind() is Audio {
                &&& final(f).descriptor() == outcome.audio.unwrap()
                &&& final(f).memory() == FrameDataDropGuard::Receiver(self.handle())
            } else {
                *final(f) == *f
            },
            meta matches Some(f) ==> if outcome.kind() is Metadata {
                &&& final(f).descriptor() == outcome.metadata.unwrap()
                &&& final(f).memory() == FrameDataDropGuard::Receiver(self.handle())
            } else {
                *final(f) == *f
            },
    {
        let CaptureOutcome { frame_type, video: raw_video, audio: raw_audio, metadata: raw_meta } =
            outcome;
        match NDIRecvType::from_ffi(frame_type) {
            NDIRecvType::Video => {
                match (video, raw_video) {
                    (Some(frame), Some(raw)) => {
                        *frame = NDIFrame {
                            raw,
                            alloc: FrameDataDropGuard::Receiver(self.handle.clone()),
                        };
                    },
                    _ => {},
                }
                Ok(NDIRecvType::Video)
            },
            NDIRecvType::Audio => {
                match (audio, raw_audio) {
                    (Some(frame), Some(raw)) => {
                        *frame = NDIFrame {
                            raw,
                            alloc: FrameDataDropGuard::Receiver(self.handle.clone()),
                        };
                    },
                    _ => {},
                }
                Ok(NDIRecvType::Audio)
            },
            NDIRecvType::Metadata => {
                match (meta, raw_meta) {
                    (Some(frame), Some(raw)) => {
                        *frame = NDIFrame {
                            raw,
                            alloc: FrameDataDropGuard::Receiver(self.handle.clone()),
                        };
                    },
                    _ => {},
                }
                Ok(NDIRecvType::Metadata)
            },
            NDIRecvType::StatusChange => Ok(NDIRecvType::StatusChange),
            NDIRecvType::SourceChange => Ok(NDIRecvType::SourceChange),
            NDIRecvType::NoFrame => Ok(NDIRecvType::NoFrame),
            NDIRecvType::Unknown => Err(NDIRecvError::UnknownType),
        }
    }

    /// Decides whether a metadata frame can be sent over the current
    /// connection, and hands out the descriptor to send.
    pub fn send_metadata<'a>(&self, frame: &'a MetadataFrame) -> (sendable: Result<
        &'a NDIRawMetadataFrame,
        SendMetadataError,
    >)
        ensures
            match sendable {
                Ok(raw) => frame.memory().readable() && *raw == frame.descriptor(),
                Err(SendMetadataError::NotSendable(reason)) => {
                    &&& !frame.memory().readable()
                    &&& reason@ == "Frame is not allocated"@
                },
                Err(SendMetadataError::NotConnected) => false,
            },
    {
        match frame.to_ffi_send_frame_ptr() {
            Ok(raw) => Ok(raw),
            Err(FFIReadablePtrError::NotReadable(desc)) => Err(SendMetadataError::NotSendable(desc)),
        }
    }

    /// Reads the answer of the SDK to a metadata frame: it takes the frame
    /// only while the receiver is connected.
    pub fn metadata_sent(&self, accepted: bool) -> (sent: Result<(), SendMetadataError>)
        ensures
            sent == if accepted {
                Ok::<(), SendMetadataError>(())
            } else {
                Err::<(), SendMetadataError>(SendMetadataError::NotConnected)
            },
    {
        if accepted {
            Ok(())
        } else {
            Err(SendMetadataError::NotConnected)
        }
    }

    /// Decides whether a metadata frame can be added to those that are sent
    /// on every connection, and hands out the descriptor to add.
    pub fn add_connection_metadata<'a>(&self, frame: &'a MetadataFrame) -> (addable: Result<
        &'a NDIRawMetadataFrame,
        SendMetadataError,
    >)
        ensures
            match addable {
                Ok(raw) => frame.memory().readable() && *raw == frame.descriptor(),
                Err(SendMetadataError::NotSendable(reason)) => {
                    &&& !frame.memory().readable()
                    &&& reason@ == "Frame is not allocated"@
                },
                Err(SendMetadataError::NotConnected) => false,
            },
    {
        match frame.to_ffi_send_frame_ptr() {
            Ok(raw) => Ok(raw),
            Err(FFIReadablePtrError::NotReadable(desc)) => Err(SendMetadataError::NotSendable(desc)),
        }
    }

    /// Reads the number of connections that the SDK reports. The SDK
    /// reports no negative number.
    pub fn get_num_connections(&self, reported: i32) -> (connections: usize)
        requires
            reported >= 0,
        ensures
            connections == reported,
    {
        reported as usize
    }

    /// Takes the web control URL that the SDK returned, if it returned one.
    /// The text belongs to the SDK and is to be given back through this
    /// receiver.
    pub fn get_web_control(&self, url: Option<CString>) -> (info: Option<NDIWebControlInfo<'_>>)
        ensures
            match info {
                Some(i) => url == Some(i.text()) && i.owner() == self.handle().addr(),
                None => url is None,
            },
    {
        match url {
            Some(url) => Some(NDIWebControlInfo { url, recv: self }),
            None => None,
        }
    }
}

/// The web control URL of a receiver. The text belongs to the SDK: when it
/// is no longer needed, it is freed through the receiver that returned it.
#[derive(Debug)]
pub struct NDIWebControlInfo<'a> {
    url: CString,
    recv: &'a NDIReceiver,
}

impl<'a> NDIWebControlInfo<'a> {
    /// The URL.
    pub closed spec fn text(&self) -> CString {
        self.url
    }

    /// The address of the receiver that the text belongs to.
    pub closed spec fn owner(&self) -> usize {
        self.recv.handle().addr()
    }

    /// The URL as the SDK wrote it.
    pub fn as_cstr(&self) -> (url: &CString)
        ensures
            *url == self.text(),
    {
        &self.url
    }

    /// Ends the use of the text and says through which receiver the SDK is
    /// to free it.
    pub fn release(self) -> (recv: usize)
        ensures
            recv == self.owner(),
            recv != 0,
    {
        self.recv.address()
    }
}

} // verus!
