//! Video frames.

use vstd::prelude::*;
use num::rational::Ratio;
use crate::buffer_info::BufferInfo;
use crate::enums::NDIFieldedFrameMode;
use crate::four_cc::{BufferInfoError, FourCC, FourCCVideo};
use crate::frame::{NDIFrameExt, RawFrame};
use crate::frame::drop_guard::{BufferRelease, FrameDataDropGuard, zeros};
use crate::frame::generic::NDIFrame;
use crate::resolution::{Resolution, lemma_safe_bounds};
use crate::timecode::{NDITime, NDI_TIME_DEFAULT};
use crate::util::CString;

verus! {

/// The ratio of two numbers, from the crate `num`. The library only builds
/// such ratios and takes them apart.
#[verifier::external_type_specification]
#[verifier::external_body]
#[verifier::reject_recursive_types(T)]
pub struct ExRatio<T>(Ratio<T>);

/// The numerator that a ratio was built with.
pub uninterp spec fn ratio_numer(ratio: Ratio<i32>) -> i32;

/// The denominator that a ratio was built with.
pub uninterp spec fn ratio_denom(ratio: Ratio<i32>) -> i32;

/// `Ratio::new_raw` stores numerator and denominator as they are given: it
/// neither reduces them nor looks at the denominator.
#[verifier::external_body]
fn ratio_new_raw(numer: i32, denom: i32) -> (ratio: Ratio<i32>)
    ensures
        ratio_numer(ratio) == numer,
        ratio_denom(ratio) == denom,
{
    Ratio::new_raw(numer, denom)
}

/// `Ratio::numer` hands out the stored numerator.
#[verifier::external_body]
fn ratio_get_numer(ratio: &Ratio<i32>) -> (numer: i32)
    ensures
        numer == ratio_numer(*ratio),
{
    *ratio.numer()
}

/// `Ratio::denom` hands out the stored denominator.
#[verifier::external_body]
fn ratio_get_denom(ratio: &Ratio<i32>) -> (denom: i32)
    ensures
        denom == ratio_denom(*ratio),
{
    *ratio.denom()
}

/// The descriptor of a video frame, field by field as the SDK's structure
/// has them. The SDK derives the picture aspect ratio from the resolution,
/// so it is not kept.
#[derive(Debug, Clone, PartialEq, Eq)]
pub struct NDIRawVideoFrame {
    /// Width in pixels.
    pub xres: i32,
    /// Height in pixels.
    pub yres: i32,
    /// Code of the pixel format.
    pub four_cc: i32,
    /// Numerator of the frame rate.
    pub frame_rate_n: i32,
    /// Denominator of the frame rate.
    pub frame_rate_d: i32,
    /// Code of the field mode.
    pub frame_format_type: i32,
    /// When the frame is to be shown, in 100 ns intervals.
    pub timecode: i64,
    /// The pointer to the pixels is set.
    pub p_data: bool,
    /// Bytes from one line to the next.
    pub line_stride_in_bytes: i32,
    /// The text that the SDK attached to a received frame.
    pub p_metadata: Option<CString>,
    /// When the frame was sent, in 100 ns intervals.
    pub timestamp: i64,
}

impl NDIRawVideoFrame {
    /// The pixel format, if the code names one.
    pub open spec fn format(&self) -> Option<FourCCVideo> {
        FourCCVideo::of_code(self.four_cc)
    }

    /// The field mode, if the code names one.
    pub open spec fn mode(&self) -> Option<NDIFieldedFrameMode> {
        NDIFieldedFrameMode::of_code(self.frame_format_type)
    }

    /// The resolution, if the stored dimensions are a safe one.
    pub open spec fn size(&self) -> Option<Resolution> {
        if Resolution::safe_i32(self.xres, self.yres) {
            Some(Resolution { x: self.xres as usize, y: self.yres as usize })
        } else {
            None
        }
    }

    /// The memory layout that the descriptor asks for. It is meaningful
    /// where the field mode is known.
    pub open spec fn layout(&self) -> Result<BufferInfo, BufferInfoError> {
        match self.format() {
            None => Err(BufferInfoError::UnspecifiedFourCC),
            Some(cc) => match self.size() {
                None => if cc.pixel_stride() is Some {
                    Err(BufferInfoError::InvalidResolution)
                } else {
                    Err(BufferInfoError::UnsupportedFourCC(cc))
                },
                Some(resolution) => cc.layout(resolution, self.mode().unwrap()),
            },
        }
    }

    /// The stored line stride is the one of the layout.
    pub open spec fn stride_fits(&self, info: BufferInfo) -> bool {
        self.line_stride_in_bytes == info.line_stride
    }

    /// The descriptor of a frame that is to be filled: no resolution yet,
    /// packed 4:2:2, progressive, 30000/1001 frames per second, the time of
    /// sending left to the SDK.
    pub open spec fn blank() -> NDIRawVideoFrame {
        NDIRawVideoFrame {
            xres: 0,
            yres: 0,
            four_cc: FourCCVideo::UYVY.code(),
            frame_rate_n: 30_000,
            frame_rate_d: 1001,
            frame_format_type: NDIFieldedFrameMode::Progressive.code(),
            timecode: NDI_TIME_DEFAULT,
            p_data: false,
            line_stride_in_bytes: 0,
            p_metadata: None,
            timestamp: 0,
        }
    }

    /// Makes the descriptor of a frame that is to be filled.
    pub fn new() -> (raw: NDIRawVideoFrame)
        ensures
            raw == Self::blank(),
            raw.unwritten(),
            raw.format() == Some(FourCCVideo::UYVY),
            raw.mode() == Some(NDIFieldedFrameMode::Progressive),
            raw.size() is None,
    {
        proof {
            FourCCVideo::UYVY.lemma_round_trip();
            NDIFieldedFrameMode::Progressive.lemma_round_trip();
        }
        NDIRawVideoFrame {
            xres: 0,
            yres: 0,
            four_cc: FourCCVideo::UYVY.to_ffi(),
            frame_rate_n: 30_000,
            frame_rate_d: 1001,
            frame_format_type: NDIFieldedFrameMode::Progressive.to_ffi(),
            timecode: NDI_TIME_DEFAULT,
            p_data: false,
            line_stride_in_bytes: 0,
            p_metadata: None,
            timestamp: 0,
        }
    }

    /// The same descriptor with other values for what says where the
    /// memory is; the attached text is left out.
    pub open spec fn placed(&self, p_data: bool, line_stride_in_bytes: i32) -> NDIRawVideoFrame {
        NDIRawVideoFrame {
            xres: self.xres,
            yres: self.yres,
            four_cc: self.four_cc,
            frame_rate_n: self.frame_rate_n,
            frame_rate_d: self.frame_rate_d,
            frame_format_type: self.frame_format_type,
            timecode: self.timecode,
            p_data,
            line_stride_in_bytes,
            p_metadata: None,
            timestamp: self.timestamp,
        }
    }

    fn place(&self, p_data: bool, line_stride_in_bytes: i32) -> (raw: NDIRawVideoFrame)
        ensures
            raw == self.placed(p_data, line_stride_in_bytes),
    {
        NDIRawVideoFrame {
            xres: self.xres,
            yres: self.yres,
            four_cc: self.four_cc,
            frame_rate_n: self.frame_rate_n,
            frame_rate_d: self.frame_rate_d,
            frame_format_type: self.frame_format_type,
            timecode: self.timecode,
            p_data,
            line_stride_in_bytes,
            p_metadata: None,
            timestamp: self.timestamp,
        }
    }

    /// Computes the layout that the descriptor asks for.
    pub fn buffer_info(&self) -> (info: Result<BufferInfo, BufferInfoError>)
        requires
            self.mode() is Some,
        ensures
            info == self.layout(),
    {
        let field_mode = NDIFieldedFrameMode::from_ffi(self.frame_format_type).unwrap();
        match FourCCVideo::from_ffi(self.four_cc) {
            None => Err(BufferInfoError::UnspecifiedFourCC),
            Some(cc) => match Resolution::try_from_i32(self.xres, self.yres) {
                Some(resolution) => cc.buffer_info(resolution, field_mode),
                None => if cc.bytes_per_pixel().is_some() {
                    Err(BufferInfoError::InvalidResolution)
                } else {
                    Err(BufferInfoError::UnsupportedFourCC(cc))
                },
            },
        }
    }
}

impl RawFrame for NDIRawVideoFrame {
    open spec fn unwritten(&self) -> bool {
        !self.p_data && self.p_metadata is None
    }

    /// A video frame is without memory, or holds memory of a receiver, or a
    /// buffer of the caller's. The pointer to the pixels is set where there
    /// is a buffer and not where there is no memory; attached text comes
    /// from a receiver only; and a buffer of the caller's has the size and
    /// the line stride of the layout.
    open spec fn fits(&self, memory: &FrameDataDropGuard) -> bool {
        match *memory {
            FrameDataDropGuard::NullPtr => self.unwritten(),
            FrameDataDropGuard::Receiver(_) => true,
            FrameDataDropGuard::Box(buf) => {
                &&& self.p_data
                &&& self.p_metadata is None
                &&& self.mode() is Some
                &&& self.layout() matches Ok(info)
                &&& buf@.len() == info.size
                &&& self.stride_fits(info)
            },
            _ => false,
        }
    }

    fn is_unwritten(&self) -> (b: bool) {
        !self.p_data && self.p_metadata.is_none()
    }
}

/// Represents a video frame.
pub type VideoFrame = NDIFrame<NDIRawVideoFrame>;

/// Why no buffer was allocated.
#[non_exhaustive]
#[derive(Debug, Clone, Copy, PartialEq, Eq, Structural)]
pub enum VideoFrameAllocationError {
    /// The frame is already allocated
    /// You have to deallocate it first
    AlreadyAllocated,
    /// An error occurred while trying to compute the buffer info
    BufferInfoError(BufferInfoError),
}

/// Why the pixels of a frame cannot be had.
#[non_exhaustive]
#[derive(Debug, Clone, Copy, PartialEq, Eq, Structural)]
pub enum VideoFrameAccessError {
    /// It is impossible to get a reference to a frame buffer that does not exist
    NotAllocated,
    /// Only possible for [`VideoFrame::video_data_mut`] if the buffer is not
    /// intended to be modified (like a received frame)
    Readonly,
    /// An error occurred while trying to compute the buffer info
    BufferInfoError(BufferInfoError),
}

/// Where the pixels of a frame are.
#[derive(Debug)]
pub enum FrameData<'a> {
    /// In a buffer of the caller's: here they are.
    Local(&'a [u8]),
    /// In memory of the SDK, `size` bytes from where the native descriptor
    /// points.
    Native { size: usize },
}

/// Either nothing or an error without further detail.
pub type VoidResult = Result<(), ()>;

impl NDIFrame<NDIRawVideoFrame> {
    /// What may be read of a frame that the SDK wrote: the field mode is
    /// one that this library knows, the pointer to the pixels is set, and
    /// the line stride is the one that the layout gives. Of any other frame
    /// this holds by itself.
    pub open spec fn sound(&self) -> bool {
        self.memory() is Receiver ==> {
            &&& self.descriptor().mode() is Some
            &&& self.descriptor().p_data
            &&& self.descriptor().layout() matches Ok(info) ==> self.descriptor().stride_fits(info)
        }
    }

    /// Constructs a new video frame (without allocating a frame buffer)
    pub fn new() -> (frame: VideoFrame)
        ensures
            frame.descriptor() == NDIRawVideoFrame::blank(),
            frame.descriptor().format() == Some(FourCCVideo::UYVY),
            frame.descriptor().mode() == Some(NDIFieldedFrameMode::Progressive),
            frame.descriptor().size() is None,
            frame.memory() is NullPtr,
            frame.memory().writable(),
            !frame.memory().readable(),
            frame.wf(),
    {
        NDIFrame { raw: NDIRawVideoFrame::new(), alloc: FrameDataDropGuard::NullPtr }
    }

    /// Generates a [`BufferInfo`] for the current resolution/FourCC/field mode
    pub fn buffer_info(&self) -> (info: Result<BufferInfo, BufferInfoError>)
        requires
            self.descriptor().mode() is Some,
        ensures
            info == self.descriptor().layout(),
    {
        self.raw.buffer_info()
    }

    /// Tries to allocate a frame buffer for the video frame. The buffer has
    /// the size that the layout gives and is filled with zero bytes.
    pub fn try_alloc(&mut self) -> (done: Result<(), VideoFrameAllocationError>)
        requires
            old(self).descriptor().mode() is Some,
        ensures
            match done {
                Ok(()) => {
                    &&& old(self).memory() is NullPtr
                    &&& old(self).descriptor().layout() matches Ok(info)
                    &&& final(self).memory().buffer() == Some(zeros(info.size as nat))
                    &&& final(self).memory().mutable()
                    &&& final(self).memory().readable()
                    &&& !final(self).memory().writable()
                    &&& final(self).descriptor() == old(self).descriptor().placed(
                        true,
                        info.line_stride as i32,
                    )
                    &&& final(self).descriptor().layout() == Ok::<BufferInfo, BufferInfoError>(info)
                },
                Err(VideoFrameAllocationError::AlreadyAllocated) => {
                    &&& !(old(self).memory() is NullPtr)
                    &&& *final(self) == *old(self)
                },
                Err(VideoFrameAllocationError::BufferInfoError(e)) => {
                    &&& old(self).memory() is NullPtr
                    &&& old(self).descriptor().layout() == Err::<BufferInfo, BufferInfoError>(e)
                    &&& *final(self) == *old(self)
                },
            },
    {
        if self.is_allocated() {
            return Err(VideoFrameAllocationError::AlreadyAllocated);
        }
        let info = match self.buffer_info() {
            Ok(info) => info,
            Err(e) => {
                return Err(VideoFrameAllocationError::BufferInfoError(e));
            },
        };
        proof {
            use_type_invariant(&*self);
            lemma_layout_bounds(self.raw);
        }
        let alloc = FrameDataDropGuard::new_boxed(info.size);
        let raw = self.raw.place(true, info.line_stride as i32);
        assert(raw.layout() == self.raw.layout());
        *self = NDIFrame { raw, alloc };
        Ok(())
    }

    /// Allocates a frame buffer for a frame that has none and whose
    /// descriptor has a layout.
    pub fn allocate(&mut self)
        requires
            old(self).descriptor().mode() is Some,
            old(self).memory() is NullPtr,
            old(self).descriptor().layout() is Ok,
        ensures
            old(self).descriptor().layout() matches Ok(info) && final(self).memory().buffer()
                == Some(zeros(info.size as nat)) && final(self).descriptor() == old(
                self,
            ).descriptor().placed(true, info.line_stride as i32),
    {
        let _ = self.try_alloc();
    }

    /// Deallocates the frame buffer. A buffer of the caller's is gone with
    /// the call; memory of the SDK is handed out to be freed through the
    /// receiver that wrote it. The descriptor keeps its values but for those
    /// that speak of the memory.
    pub fn dealloc(&mut self) -> (release: BufferRelease)
        ensures
            final(self).memory() is NullPtr,
            final(self).memory().writable(),
            final(self).memory().buffer() is None,
            release == old(self).memory().release_of(),
            final(self).descriptor() == old(self).descriptor().placed(false, -1i32),
    {
        let mut held = VideoFrame::new();
        core::mem::swap(self, &mut held);
        let NDIFrame { raw, alloc } = held;
        let mut alloc = alloc;
        let release = alloc.drop_buffer();
        *self = NDIFrame { raw: raw.place(false, -1), alloc };
        release
    }

    /// Tests what [`VideoFrame::video_data`] asks of a frame.
    pub fn is_sound(&self) -> (b: bool)
        ensures
            b == self.sound(),
    {
        match &self.alloc {
            FrameDataDropGuard::Receiver(_) => {
                if NDIFieldedFrameMode::from_ffi(self.raw.frame_format_type).is_none() {
                    return false;
                }
                if !self.raw.p_data {
                    return false;
                }
                match self.raw.buffer_info() {
                    Ok(info) => self.raw.line_stride_in_bytes >= 0
                        && self.raw.line_stride_in_bytes as usize == info.line_stride,
                    Err(_) => true,
                }
            },
            _ => true,
        }
    }

    /// Read access to the frame data, together with its layout.
    pub fn video_data(&self) -> (access: Result<(FrameData<'_>, BufferInfo), VideoFrameAccessError>)
        requires
            self.sound(),
        ensures
            match access {
                Ok((data, info)) => {
                    &&& self.descriptor().layout() == Ok::<BufferInfo, BufferInfoError>(info)
                    &&& self.descriptor().stride_fits(info)
                    &&& match self.memory() {
                        FrameDataDropGuard::Box(buf) => data matches FrameData::Local(bytes)
                            && bytes@ == buf@ && bytes@.len() == info.size,
                        FrameDataDropGuard::Receiver(_) => data == (FrameData::Native {
                            size: info.size,
                        }),
                        _ => false,
                    }
                },
                Err(VideoFrameAccessError::NotAllocated) => self.memory() is NullPtr,
                Err(VideoFrameAccessError::BufferInfoError(e)) => {
                    &&& !(self.memory() is NullPtr)
                    &&& self.descriptor().layout() == Err::<BufferInfo, BufferInfoError>(e)
                },
                Err(VideoFrameAccessError::Readonly) => false,
            },
    {
        proof {
            use_type_invariant(self);
        }
        match &self.alloc {
            FrameDataDropGuard::NullPtr => Err(VideoFrameAccessError::NotAllocated),
            FrameDataDropGuard::Box(buf) => match self.raw.buffer_info() {
                Ok(info) => Ok((FrameData::Local(buf.as_slice()), info)),
                Err(e) => Err(VideoFrameAccessError::BufferInfoError(e)),
            },
            _ => match self.raw.buffer_info() {
                Ok(info) => Ok((FrameData::Native { size: info.size }, info)),
                Err(e) => Err(VideoFrameAccessError::BufferInfoError(e)),
            },
        }
    }

    /// Mutable access to the frame data, together with its layout. Only a
    /// buffer of the caller's can be written.
    pub fn video_data_mut(&mut self) -> (access: Result<
        (&mut [u8], BufferInfo),
        VideoFrameAccessError,
    >)
        ensures
            match access {
                Ok((bytes, info)) => {
                    &&& old(self).memory() matches FrameDataDropGuard::Box(buf)
                    &&& bytes@ == buf@
                    &&& bytes@.len() == info.size
                    &&& old(self).descriptor().layout() == Ok::<BufferInfo, BufferInfoError>(info)
                    &&& final(self).memory() matches FrameDataDropGuard::Box(written)
                    &&& written@ == final(bytes)@
                    &&& final(self).descriptor() == old(self).descriptor()
                },
                Err(VideoFrameAccessError::NotAllocated) => {
                    &&& old(self).memory() is NullPtr
                    &&& *final(self) == *old(self)
                },
                Err(VideoFrameAccessError::Readonly) => {
                    &&& old(self).memory() is Receiver
                    &&& *final(self) == *old(self)
                },
                Err(VideoFrameAccessError::BufferInfoError(_)) => false,
            },
    {
        proof {
            use_type_invariant(&*self);
        }
        if !self.is_allocated() {
            return Err(VideoFrameAccessError::NotAllocated);
        }
        if !self.alloc.is_mut() {
            return Err(VideoFrameAccessError::Readonly);
        }
        let info = match self.raw.buffer_info() {
            Ok(info) => info,
            Err(e) => {
                return Err(VideoFrameAccessError::BufferInfoError(e));
            },
        };
        match self.alloc.boxed_mut() {
            Some(bytes) => Ok((bytes, info)),
            None => Err(VideoFrameAccessError::Readonly),
        }
    }
}

// Property accessors
impl NDIFrame<NDIRawVideoFrame> {
    /// Tests whether the stored dimensions are a safe resolution.
    pub fn has_resolution(&self) -> (b: bool)
        ensures
            b == (self.descriptor().size() is Some),
    {
        Resolution::is_safe_i32(self.raw.xres, self.raw.yres)
    }

    /// Gets the resolution of the frame.
    pub fn resolution(&self) -> (resolution: Resolution)
        requires
            self.descriptor().size() is Some,
        ensures
            Some(resolution) == self.descriptor().size(),
            resolution.valid(),
    {
        Resolution::from_i32(self.raw.xres, self.raw.yres)
    }

    /// Gets the resolution of the frame, if the stored dimensions are a
    /// safe one. A new frame has none.
    pub fn try_resolution(&self) -> (resolution: Option<Resolution>)
        ensures
            resolution == self.descriptor().size(),
    {
        Resolution::try_from_i32(self.raw.xres, self.raw.yres)
    }

    /// Sets the resolution of the frame.
    /// This will fail if the frame is already allocated.
    pub fn set_resolution(&mut self, resolution: Resolution) -> (done: VoidResult)
        ensures
            done is Ok <==> old(self).memory() is NullPtr,
            done is Err ==> *final(self) == *old(self),
            done is Ok ==> {
                &&& final(self).memory() is NullPtr
                &&& final(self).descriptor() == (NDIRawVideoFrame {
                    xres: resolution.x as i32,
                    yres: resolution.y as i32,
                    ..old(self).descriptor()
                })
                &&& resolution.valid() ==> final(self).descriptor().size() == Some(resolution)
            },
    {
        if self.is_allocated() {
            Err(())
        } else {
            proof {
                use_type_invariant(&*self);
                if resolution.valid() {
                    lemma_safe_bounds(resolution.x as int, resolution.y as int);
                }
            }
            let (x, y) = resolution.to_i32();
            self.raw.xres = x;
            self.raw.yres = y;
            Ok(())
        }
    }

    /// Gets the FourCC format of the frame
    pub fn four_cc(&self) -> (format: Option<FourCCVideo>)
        ensures
            format == self.descriptor().format(),
    {
        FourCCVideo::from_ffi(self.raw.four_cc)
    }

    /// Gets the code of the frame's format, known to this library or not.
    pub fn raw_four_cc(&self) -> (code: FourCC)
        ensures
            code@ == self.descriptor().four_cc,
    {
        FourCC::from_ffi(self.raw.four_cc)
    }

    /// Sets the FourCC format of the frame.
    /// This will fail if the frame is already allocated.
    pub fn set_four_cc(&mut self, four_cc: FourCCVideo) -> (done: VoidResult)
        ensures
            done is Ok <==> old(self).memory() is NullPtr,
            done is Err ==> *final(self) == *old(self),
            done is Ok ==> {
                &&& final(self).memory() is NullPtr
                &&& final(self).descriptor() == (NDIRawVideoFrame {
                    four_cc: four_cc.code(),
                    ..old(self).descriptor()
                })
                &&& final(self).descriptor().format() == Some(four_cc)
            },
    {
        if self.is_allocated() {
            Err(())
        } else {
            proof {
                use_type_invariant(&*self);
                four_cc.lemma_round_trip();
            }
            self.raw.four_cc = four_cc.to_ffi();
            Ok(())
        }
    }

    /// The frame rate as the ratio that the descriptor stores.
    pub fn frame_rate(&self) -> (rate: Ratio<i32>)
        ensures
            ratio_numer(rate) == self.descriptor().frame_rate_n,
            ratio_denom(rate) == self.descriptor().frame_rate_d,
    {
        ratio_new_raw(self.raw.frame_rate_n, self.raw.frame_rate_d)
    }

    /// Stores numerator and denominator of the frame rate as they are.
    pub fn set_frame_rate(&mut self, frame_rate: Ratio<i32>)
        ensures
            final(self).memory() == old(self).memory(),
            final(self).descriptor() == (NDIRawVideoFrame {
                frame_rate_n: ratio_numer(frame_rate),
                frame_rate_d: ratio_denom(frame_rate),
                ..old(self).descriptor()
            }),
    {
        let numer = ratio_get_numer(&frame_rate);
        let denom = ratio_get_denom(&frame_rate);
        self.set_frame_rate_raw(numer, denom);
    }

    /// Stores numerator and denominator of the frame rate. The rate can be
    /// changed at any time: the layout does not depend on it.
    pub fn set_frame_rate_raw(&mut self, numer: i32, denom: i32)
        ensures
            final(self).memory() == old(self).memory(),
            final(self).descriptor() == (NDIRawVideoFrame {
                frame_rate_n: numer,
                frame_rate_d: denom,
                ..old(self).descriptor()
            }),
    {
        proof {
            use_type_invariant(&*self);
        }
        self.raw.frame_rate_n = numer;
        self.raw.frame_rate_d = denom;
    }

    /// Access the metadata associated with the frame if any
    pub fn metadata(&self) -> (text: Option<&CString>)
        ensures
            match text {
                Some(t) => self.descriptor().p_metadata == Some(*t),
                None => self.descriptor().p_metadata is None,
            },
    {
        self.raw.p_metadata.as_ref()
    }

    /// Gets the current field mode of the frame.
    pub fn field_mode(&self) -> (mode: NDIFieldedFrameMode)
        requires
            self.descriptor().mode() is Some,
        ensures
            Some(mode) == self.descriptor().mode(),
    {
        NDIFieldedFrameMode::from_ffi(self.raw.frame_format_type).unwrap()
    }

    /// Gets the current field mode of the frame, if the descriptor holds
    /// the code of one.
    pub fn frame_format(&self) -> (mode: Option<NDIFieldedFrameMode>)
        ensures
            mode == self.descriptor().mode(),
    {
        NDIFieldedFrameMode::from_ffi(self.raw.frame_format_type)
    }

    /// Sets the field mode of the frame.
    /// This will fail if the frame is already allocated.
    pub fn set_frame_format(&mut self, frame_format: NDIFieldedFrameMode) -> (done: VoidResult)
        ensures
            done is Ok <==> old(self).memory() is NullPtr,
            done is Err ==> *final(self) == *old(self),
            done is Ok ==> {
                &&& final(self).memory() is NullPtr
                &&& final(self).descriptor() == (NDIRawVideoFrame {
                    frame_format_type: frame_format.code(),
                    ..old(self).descriptor()
                })
                &&& final(self).descriptor().mode() == Some(frame_format)
            },
    {
        if self.is_allocated() {
            Err(())
        } else {
            proof {
                use_type_invariant(&*self);
                frame_format.lemma_round_trip();
            }
            self.raw.frame_format_type = frame_format.to_ffi();
            Ok(())
        }
    }

    /// When the frame is to be shown.
    pub fn send_time(&self) -> (time: NDITime)
        ensures
            time.0 == self.descriptor().timecode,
    {
        NDITime::from_ffi(self.raw.timecode)
    }

    pub fn set_send_time(&mut self, time: NDITime)
        ensures
            final(self).memory() == old(self).memory(),
            final(self).descriptor() == (NDIRawVideoFrame {
                timecode: time.0,
                ..old(self).descriptor()
            }),
    {
        proof {
            use_type_invariant(&*self);
        }
        self.raw.timecode = time.to_ffi();
    }

    /// When the frame was sent.
    pub fn recv_time(&self) -> (time: NDITime)
        ensures
            time.0 == self.descriptor().timestamp,
    {
        NDITime::from_ffi(self.raw.timestamp)
    }

    pub fn set_recv_time(&mut self, time: NDITime)
        ensures
            final(self).memory() == old(self).memory(),
            final(self).descriptor() == (NDIRawVideoFrame {
                timestamp: time.0,
                ..old(self).descriptor()
            }),
    {
        proof {
            use_type_invariant(&*self);
        }
        self.raw.timestamp = time.to_ffi();
    }

    /// The line stride that the descriptor stores. It means something only
    /// while the frame has memory.
    pub fn lib_stride(&self) -> (stride: i32)
        ensures
            stride == self.descriptor().line_stride_in_bytes,
    {
        self.raw.line_stride_in_bytes
    }
}

impl NDIFrameExt for NDIFrame<NDIRawVideoFrame> {
    open spec fn holds_data(&self) -> bool {
        self.descriptor().p_data && self.memory().readable()
    }

    open spec fn release_due(&self) -> BufferRelease {
        self.memory().release_of()
    }

    fn data_valid(&self) -> (b: bool) {
        self.raw.p_data && self.alloc.is_allocated()
    }

    fn clear(&mut self) -> (release: BufferRelease) {
        self.dealloc()
    }
}

/// Allocation, read access and write access compute the layout from the
/// same fields of the descriptor. Placing or removing memory touches none of
/// them, so all three agree on every frame.
pub proof fn lemma_placed_keeps_layout(raw: NDIRawVideoFrame, p_data: bool, stride: i32)
    ensures
        raw.placed(p_data, stride).layout() == raw.layout(),
        raw.placed(p_data, stride).format() == raw.format(),
        raw.placed(p_data, stride).mode() == raw.mode(),
        raw.placed(p_data, stride).size() == raw.size(),
{
}

/// The sizes of a layout fit the SDK's signed 32-bit fields.
pub proof fn lemma_layout_bounds(raw: NDIRawVideoFrame)
    requires
        raw.layout() is Ok,
    ensures
        raw.layout() matches Ok(info) && info.line_stride <= i32::MAX && info.size <= i32::MAX
            && raw.size() == Some(info.resolution),
{
    let cc = raw.format().unwrap();
    let resolution = raw.size().unwrap();
    let stride = cc.pixel_stride().unwrap();
    let x = resolution.x as int;
    let y = resolution.y as int;
    lemma_safe_bounds(x, y);
    assert(x * stride <= x * y * stride && x * y * stride <= x * y * 8) by (nonlinear_arith)
        requires
            0 < stride <= 8,
            x > 0,
            y > 0,
    ;
}

} // verus!
