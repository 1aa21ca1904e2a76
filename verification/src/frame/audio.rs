//! Audio frames.

use vstd::prelude::*;
use crate::four_cc::{FourCC, FourCCAudio};
use crate::frame::{NDIFrameExt, RawFrame};
use crate::frame::drop_guard::{BufferRelease, FrameDataDropGuard};
use crate::frame::generic::NDIFrame;
use crate::timecode::NDI_TIME_DEFAULT;
use crate::util::CString;

verus! {

/// The descriptor of an audio frame, field by field as the SDK's structure
/// has them.
#[derive(Debug, Clone, PartialEq, Eq)]
pub struct NDIRawAudioFrame {
    /// Samples per second.
    pub sample_rate: i32,
    /// Number of channels.
    pub no_channels: i32,
    /// Samples of each channel.
    pub no_samples: i32,
    /// When the frame is to be played, in 100 ns intervals.
    pub timecode: i64,
    /// Code of the sample format.
    pub four_cc: i32,
    /// The pointer to the samples is set.
    pub p_data: bool,
    /// Bytes from one channel to the next.
    pub channel_stride_in_bytes: i32,
    /// The text that the SDK attached to a received frame.
    pub p_metadata: Option<CString>,
    /// When the frame was sent, in 100 ns intervals.
    pub timestamp: i64,
}

impl NDIRawAudioFrame {
    /// The sample format, if the code names one.
    pub open spec fn format(&self) -> Option<FourCCAudio> {
        FourCCAudio::of_code(self.four_cc)
    }

    /// The descriptor of a frame that is to be filled: 48 kHz, two channels,
    /// no samples yet, planar floating point, the time of sending left to
    /// the SDK.
    pub open spec fn blank() -> NDIRawAudioFrame {
        NDIRawAudioFrame {
            sample_rate: 48_000,
            no_channels: 2,
            no_samples: 0,
            timecode: NDI_TIME_DEFAULT,
            four_cc: FourCCAudio::FLTP.code(),
            p_data: false,
            channel_stride_in_bytes: 0,
            p_metadata: None,
            timestamp: 0,
        }
    }

    /// The same descriptor with both pointers cleared.
    pub open spec fn cleared(&self) -> NDIRawAudioFrame {
        NDIRawAudioFrame { p_data: false, p_metadata: None, ..*self }
    }

    /// Makes the descriptor of a frame that is to be filled.
    pub fn new() -> (raw: NDIRawAudioFrame)
        ensures
            raw == Self::blank(),
            raw.unwritten(),
            raw.format() == Some(FourCCAudio::FLTP),
    {
        proof {
            FourCCAudio::FLTP.lemma_round_trip();
        }
        NDIRawAudioFrame {
            sample_rate: 48_000,
            no_channels: 2,
            no_samples: 0,
            timecode: NDI_TIME_DEFAULT,
            four_cc: FourCCAudio::FLTP.to_ffi(),
            p_data: false,
            channel_stride_in_bytes: 0,
            p_metadata: None,
            timestamp: 0,
        }
    }
}

impl RawFrame for NDIRawAudioFrame {
    open spec fn unwritten(&self) -> bool {
        !self.p_data && self.p_metadata is None
    }

    /// An audio frame is without memory or holds memory of a receiver.
    open spec fn fits(&self, memory: &FrameDataDropGuard) -> bool {
        match *memory {
            FrameDataDropGuard::NullPtr => self.unwritten(),
            FrameDataDropGuard::Receiver(_) => true,
            _ => false,
        }
    }

    fn is_unwritten(&self) -> (b: bool) {
        !self.p_data && self.p_metadata.is_none()
    }
}

/// Represents an audio frame.
pub type AudioFrame = NDIFrame<NDIRawAudioFrame>;

impl NDIFrame<NDIRawAudioFrame> {
    /// Constructs a new audio frame, without samples.
    pub fn new() -> (frame: AudioFrame)
        ensures
            frame.descriptor() == NDIRawAudioFrame::blank(),
            frame.descriptor().format() == Some(FourCCAudio::FLTP),
            frame.memory() is NullPtr,
            frame.memory().writable(),
            !frame.memory().readable(),
            frame.wf(),
    {
        NDIFrame { raw: NDIRawAudioFrame::new(), alloc: FrameDataDropGuard::NullPtr }
    }

    /// Gets the sample format of the frame.
    pub fn four_cc(&self) -> (format: Option<FourCCAudio>)
        ensures
            format == self.descriptor().format(),
    {
        FourCCAudio::from_ffi(self.raw.four_cc)
    }

    /// Gets the code of the frame's format, known to this library or not.
    pub fn raw_four_cc(&self) -> (code: FourCC)
        ensures
            code@ == self.descriptor().four_cc,
    {
        FourCC::from_ffi(self.raw.four_cc)
    }

    /// Access the metadata associated with the frame if any
    pub fn metadata(&self) -> (text: Option<&CString>)
        ensures
            match text {
                Some(t) => self.descriptor().p_metadata == Some(*t),
                None => self.descriptor().p_metadata is None,
            },
    {
        self.raw.p_metadata.as_ref()
    }

    /// Lets go of the samples. Memory of the SDK is handed out to be freed
    /// through the receiver that wrote it. The descriptor keeps its values
    /// but for the two pointers.
    pub fn dealloc(&mut self) -> (release: BufferRelease)
        ensures
            final(self).memory() is NullPtr,
            release == old(self).memory().release_of(),
            final(self).descriptor() == old(self).descriptor().cleared(),
    {
        let mut held = AudioFrame::new();
        core::mem::swap(self, &mut held);
        let NDIFrame { raw, alloc } = held;
        let mut alloc = alloc;
        let release = alloc.drop_buffer();
        *self = NDIFrame {
            raw: NDIRawAudioFrame {
                sample_rate: raw.sample_rate,
                no_channels: raw.no_channels,
                no_samples: raw.no_samples,
                timecode: raw.timecode,
                four_cc: raw.four_cc,
                p_data: false,
                channel_stride_in_bytes: raw.channel_stride_in_bytes,
                p_metadata: None,
                timestamp: raw.timestamp,
            },
            alloc,
        };
        release
    }
}

impl NDIFrameExt for NDIFrame<NDIRawAudioFrame> {
    open spec fn holds_data(&self) -> bool {
        self.descriptor().p_data && self.memory().readable()
    }

    open spec fn release_due(&self) -> BufferRelease {
        self.memory().release_of()
    }

    fn data_valid(&self) -> (b: bool) {
        self.raw.p_data && self.alloc.is_allocated()
    }

    fn clear(&mut self) -> (release: BufferRelease) {
        self.dealloc()
    }
}

} // verus!
