use ndi_sdk_sys::enums::NDIFieldedFrameMode;
use ndi_sdk_sys::four_cc::{BufferInfoError, FourCCAudio, FourCCVideo};
use ndi_sdk_sys::frame::audio::AudioFrame;
use ndi_sdk_sys::frame::drop_guard::{BufferRelease, FrameDataDropGuard};
use ndi_sdk_sys::frame::generic::{FFIReadablePtrError, FFIWritablePtrError};
use ndi_sdk_sys::frame::metadata::MetadataFrame;
use ndi_sdk_sys::frame::video::{
    FrameData, VideoFrame, VideoFrameAccessError, VideoFrameAllocationError,
};
use ndi_sdk_sys::frame::NDIFrameExt;
use ndi_sdk_sys::resolution::Resolution;
use ndi_sdk_sys::timecode::NDITime;
use ndi_sdk_sys::util::CString;
use num::rational::Ratio;

fn hd_rgbx() -> VideoFrame {
    let mut frame = VideoFrame::new();
    frame.set_resolution(Resolution::new(1920, 1080)).unwrap();
    frame.set_four_cc(FourCCVideo::RGBX).unwrap();
    frame
}

#[test]
fn allocate_hd_rgbx_progressive() {
    let mut frame = hd_rgbx();
    frame.try_alloc().unwrap();
    let info = frame.buffer_info().unwrap();
    assert_eq!(info.size, 1920 * 1080 * 4);
    assert_eq!(info.line_stride, 1920 * 4);
    assert_eq!(info.resolution, Resolution::new(1920, 1080));
    assert_eq!(info.field_mode, NDIFieldedFrameMode::Progressive);
    assert_eq!(frame.lib_stride(), 1920 * 4);
    let (data, same) = frame.video_data().unwrap();
    assert_eq!(same, info);
    match data {
        FrameData::Local(bytes) => {
            assert_eq!(bytes.len(), 1920 * 1080 * 4);
            assert!(bytes.iter().all(|b| *b == 0));
        }
        FrameData::Native { .. } => panic!("the buffer is the caller's"),
    }
}

#[test]
fn a_new_video_frame_is_blank() {
    let frame = VideoFrame::new();
    assert!(frame.is_ffi_writable());
    assert!(!frame.is_ffi_readable());
    assert!(!frame.is_allocated());
    assert!(frame.is_unwritten());
    assert!(!frame.data_valid());
    assert_eq!(frame.four_cc(), Some(FourCCVideo::UYVY));
    assert_eq!(frame.raw_four_cc().to_string(), "UYVY");
    assert_eq!(frame.frame_format(), Some(NDIFieldedFrameMode::Progressive));
    assert_eq!(frame.field_mode(), NDIFieldedFrameMode::Progressive);
    assert_eq!(frame.try_resolution(), None);
    assert!(!frame.has_resolution());
    assert_eq!(frame.send_time(), NDITime::synthesize());
    assert_eq!(frame.recv_time(), NDITime::from_ffi(0));
    assert_eq!(frame.lib_stride(), 0);
    assert!(frame.metadata().is_none());
    assert!(frame.is_sound());
    assert!(matches!(frame.guard(), FrameDataDropGuard::NullPtr));
    let raw = frame.raw();
    assert_eq!((raw.xres, raw.yres), (0, 0));
    assert_eq!((raw.frame_rate_n, raw.frame_rate_d), (30_000, 1001));
    assert!(!raw.p_data);
}

#[test]
fn ownership_of_a_local_buffer() {
    let mut frame = hd_rgbx();
    // empty: writable, not readable
    assert!(frame.is_ffi_writable());
    assert!(!frame.is_ffi_readable());
    assert_eq!(frame.to_ffi_recv_frame_ptr(), Ok(()));
    assert_eq!(
        frame.to_ffi_send_frame_ptr().err(),
        Some(FFIReadablePtrError::NotReadable("Frame is not allocated"))
    );
    assert_eq!(
        frame.video_data().err(),
        Some(VideoFrameAccessError::NotAllocated)
    );
    assert_eq!(
        frame.video_data_mut().err(),
        Some(VideoFrameAccessError::NotAllocated)
    );

    // allocated: mutable, readable, not writable
    assert_eq!(frame.try_alloc(), Ok(()));
    assert!(frame.is_allocated());
    assert!(frame.is_ffi_readable());
    assert!(!frame.is_ffi_writable());
    assert!(frame.guard().is_mut());
    assert!(!frame.guard().is_from_sdk());
    assert!(frame.data_valid());
    assert!(frame.video_data_mut().is_ok());
    assert!(frame.to_ffi_send_frame_ptr().is_ok());
    assert_eq!(
        frame.to_ffi_recv_frame_ptr(),
        Err(FFIWritablePtrError::NotWritable(
            "Data is Boxed, intended to be sent"
        ))
    );

    // a second allocation fails and changes nothing
    assert_eq!(
        frame.try_alloc(),
        Err(VideoFrameAllocationError::AlreadyAllocated)
    );
    assert!(frame.is_allocated());
    assert_eq!(frame.lib_stride(), 7680);

    // what fixes the layout cannot be changed while the buffer exists
    assert_eq!(frame.set_resolution(Resolution::new(1280, 720)), Err(()));
    assert_eq!(frame.set_four_cc(FourCCVideo::UYVY), Err(()));
    assert_eq!(frame.set_frame_format(NDIFieldedFrameMode::Field0), Err(()));
    assert_eq!(frame.try_resolution(), Some(Resolution::new(1920, 1080)));
    assert_eq!(frame.four_cc(), Some(FourCCVideo::RGBX));

    // released: writable again, the memory is gone
    assert!(matches!(frame.dealloc(), BufferRelease::Done));
    assert!(frame.is_ffi_writable());
    assert!(!frame.is_ffi_readable());
    assert!(!frame.is_allocated());
    assert!(!frame.data_valid());
    assert!(matches!(frame.guard(), FrameDataDropGuard::NullPtr));
    assert_eq!(frame.lib_stride(), -1);
    assert_eq!(
        frame.video_data().err(),
        Some(VideoFrameAccessError::NotAllocated)
    );
    // releasing twice frees nothing twice
    assert!(matches!(frame.dealloc(), BufferRelease::Done));
    assert!(matches!(frame.clear(), BufferRelease::Done));

    // and the frame can be allocated anew, with another layout
    assert_eq!(frame.set_resolution(Resolution::new(1280, 720)), Ok(()));
    assert_eq!(frame.set_four_cc(FourCCVideo::UYVY), Ok(()));
    assert_eq!(frame.set_frame_format(NDIFieldedFrameMode::Field1), Ok(()));
    frame.allocate();
    let (data, info) = frame.video_data().unwrap();
    assert_eq!(info.size, 1280 * 720);
    assert_eq!(info.line_stride, 2560);
    assert!(matches!(data, FrameData::Local(bytes) if bytes.len() == 1280 * 720));
}

#[test]
fn what_is_written_can_be_read_back() {
    let mut frame = VideoFrame::new();
    frame.set_resolution(Resolution::new(4, 2)).unwrap();
    frame.set_four_cc(FourCCVideo::BGRA).unwrap();
    frame.try_alloc().unwrap();
    {
        let (bytes, info) = frame.video_data_mut().unwrap();
        assert_eq!(info.size, 32);
        assert_eq!(info.line_stride, 16);
        assert_eq!(bytes.len(), 32);
        for (i, b) in bytes.iter_mut().enumerate() {
            *b = i as u8;
        }
    }
    let (data, info) = frame.video_data().unwrap();
    assert_eq!(info.size, 32);
    match data {
        FrameData::Local(bytes) => {
            let expected: Vec<u8> = (0u8..32).collect();
            assert_eq!(bytes, &expected[..]);
        }
        FrameData::Native { .. } => panic!("the buffer is the caller's"),
    }
}

#[test]
fn allocation_errors() {
    // no resolution yet
    let mut frame = VideoFrame::new();
    assert_eq!(
        frame.buffer_info(),
        Err(BufferInfoError::InvalidResolution)
    );
    assert_eq!(
        frame.try_alloc(),
        Err(VideoFrameAllocationError::BufferInfoError(
            BufferInfoError::InvalidResolution
        ))
    );
    assert!(frame.is_ffi_writable());

    // a planar format
    frame.set_resolution(Resolution::new(1920, 1080)).unwrap();
    frame.set_four_cc(FourCCVideo::NV12).unwrap();
    assert_eq!(
        frame.buffer_info(),
        Err(BufferInfoError::UnsupportedFourCC(FourCCVideo::NV12))
    );
    assert_eq!(
        frame.try_alloc(),
        Err(VideoFrameAllocationError::BufferInfoError(
            BufferInfoError::UnsupportedFourCC(FourCCVideo::NV12)
        ))
    );
    assert!(frame.is_ffi_writable());

    // a resolution that was written down unchecked
    frame.set_four_cc(FourCCVideo::RGBA).unwrap();
    frame
        .set_resolution(Resolution { x: 1921, y: 1080 })
        .unwrap();
    assert_eq!(frame.try_resolution(), None);
    assert_eq!(
        frame.try_alloc(),
        Err(VideoFrameAllocationError::BufferInfoError(
            BufferInfoError::InvalidResolution
        ))
    );
}

#[test]
fn buffer_info_agrees_on_every_path() {
    let mut frame = hd_rgbx();
    frame
        .set_frame_format(NDIFieldedFrameMode::Field0)
        .unwrap();
    let before = frame.buffer_info().unwrap();
    frame.try_alloc().unwrap();
    let after = frame.buffer_info().unwrap();
    let read = frame.video_data().unwrap().1;
    let written = frame.video_data_mut().unwrap().1;
    assert_eq!(before, after);
    assert_eq!(after, read);
    assert_eq!(read, written);
    assert_eq!(before.size, 1920 * 1080 * 4 / 2);
    assert_eq!(
        Ok(before),
        FourCCVideo::RGBX.buffer_info(Resolution::new(1920, 1080), NDIFieldedFrameMode::Field0)
    );
}

#[test]
fn frame_rate_goes_through_the_ratio() {
    let mut frame = VideoFrame::new();
    let rate = frame.frame_rate();
    assert_eq!((*rate.numer(), *rate.denom()), (30_000, 1001));
    frame.set_frame_rate(Ratio::new_raw(50, 2));
    let rate = frame.frame_rate();
    // neither reduced nor swapped
    assert_eq!((*rate.numer(), *rate.denom()), (50, 2));
    assert_eq!((frame.raw().frame_rate_n, frame.raw().frame_rate_d), (50, 2));
    frame.set_frame_rate(Ratio::new_raw(-5, 0));
    assert_eq!((frame.raw().frame_rate_n, frame.raw().frame_rate_d), (-5, 0));
}

#[test]
fn times_are_stored_as_given() {
    let mut frame = hd_rgbx();
    frame.set_send_time(NDITime::from_ffi(123_456_789));
    frame.set_recv_time(NDITime::from_ffi(-42));
    assert_eq!(frame.send_time().to_ffi(), 123_456_789);
    assert_eq!(frame.recv_time().to_ffi(), -42);
    // times can be set on an allocated frame too
    frame.try_alloc().unwrap();
    frame.set_send_time(NDITime::synthesize());
    assert!(frame.send_time().is_default());
    assert_eq!(frame.recv_time().to_ffi(), -42);
    assert_eq!(frame.buffer_info().unwrap().size, 1920 * 1080 * 4);
}

#[test]
fn a_new_audio_frame_is_blank() {
    let mut frame = AudioFrame::new();
    assert!(frame.is_ffi_writable());
    assert!(!frame.is_ffi_readable());
    assert!(!frame.data_valid());
    assert_eq!(frame.four_cc(), Some(FourCCAudio::FLTP));
    assert_eq!(frame.raw_four_cc().to_string(), "FLTp");
    assert!(frame.metadata().is_none());
    let raw = frame.raw();
    assert_eq!(
        (raw.sample_rate, raw.no_channels, raw.no_samples),
        (48_000, 2, 0)
    );
    assert_eq!(raw.timecode, i64::MAX);
    assert!(frame.to_ffi_send_frame_ptr().is_err());
    assert!(matches!(frame.dealloc(), BufferRelease::Done));
    assert!(matches!(frame.clear(), BufferRelease::Done));
    assert!(frame.is_ffi_writable());
}

#[test]
fn metadata_frame_of_a_text() {
    let text = CString::new("<ndi_product name=\"test\"/>").unwrap();
    let mut frame = MetadataFrame::from_string(text);
    assert!(frame.is_ffi_readable());
    assert!(!frame.is_ffi_writable());
    assert!(frame.guard().is_mut());
    assert!(frame.data_valid());
    assert!(frame.is_sound());
    assert_eq!(
        frame.to_str().unwrap().as_bytes(),
        b"<ndi_product name=\"test\"/>"
    );
    assert_eq!(
        frame.to_str().unwrap().as_bytes_with_nul(),
        b"<ndi_product name=\"test\"/>\0"
    );
    // the length counts the closing zero byte
    assert_eq!(frame.raw().length, 27);
    assert_eq!(frame.raw().timecode, i64::MAX);
    assert_eq!(
        frame.to_ffi_recv_frame_ptr(),
        Err(FFIWritablePtrError::NotWritable(
            "Data is CString, intended to be sent"
        ))
    );
    assert!(matches!(frame.dealloc(), BufferRelease::Done));
    assert!(frame.is_ffi_writable());
    assert!(frame.to_str().is_none());
    assert_eq!(frame.raw().length, 0);

    let empty = MetadataFrame::from(CString::new("").unwrap());
    assert_eq!(empty.raw().length, 1);
    assert_eq!(empty.to_str().unwrap().count_bytes(), 0);

    let blank = MetadataFrame::new();
    assert!(blank.is_ffi_writable());
    assert!(blank.to_str().is_none());
    assert!(!blank.data_valid());
    assert_eq!(blank.raw().length, 0);
}

#[test]
fn guard_states() {
    let empty = FrameDataDropGuard::NullPtr;
    assert!(empty.is_ffi_writable());
    assert!(!empty.is_ffi_readable());
    assert!(!empty.is_allocated());
    assert!(!empty.is_from_sdk());
    assert!(!empty.is_mut());
    assert_eq!(empty.reason_for_not_ffi_readable(), "Frame is not allocated");

    let mut boxed = FrameDataDropGuard::new_boxed(5);
    assert!(matches!(&boxed, FrameDataDropGuard::Box(buf) if buf == &vec![0u8; 5]));
    assert!(!boxed.is_ffi_writable());
    assert!(boxed.is_ffi_readable());
    assert!(boxed.is_allocated());
    assert!(!boxed.is_from_sdk());
    assert!(boxed.is_mut());
    assert_eq!(
        boxed.reason_for_not_ffi_writable(),
        "Data is Boxed, intended to be sent"
    );
    {
        let bytes = boxed.boxed_mut().unwrap();
        bytes[4] = 9;
    }
    assert!(matches!(&boxed, FrameDataDropGuard::Box(buf) if buf == &vec![0, 0, 0, 0, 9]));
    assert!(matches!(boxed.drop_buffer(), BufferRelease::Done));
    assert!(matches!(boxed, FrameDataDropGuard::NullPtr));
    assert!(boxed.boxed_mut().is_none());

    let mut text = FrameDataDropGuard::CString(CString::new("x").unwrap());
    assert!(text.is_mut());
    assert!(text.is_ffi_readable());
    assert!(!text.is_from_sdk());
    assert_eq!(
        text.reason_for_not_ffi_writable(),
        "Data is CString, intended to be sent"
    );
    assert!(text.boxed_mut().is_none());
    assert!(matches!(text.drop_buffer(), BufferRelease::Done));
    assert!(text.is_ffi_writable());

    assert!(matches!(
        FrameDataDropGuard::new_boxed(0),
        FrameDataDropGuard::Box(buf) if buf.is_empty()
    ));
}
