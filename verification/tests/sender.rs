use ndi_sdk_sys::frame::audio::AudioFrame;
use ndi_sdk_sys::frame::drop_guard::{BufferRelease, FrameDataDropGuard};
use ndi_sdk_sys::frame::metadata::{MetadataFrame, NDIRawMetadataFrame};
use ndi_sdk_sys::frame::video::VideoFrame;
use ndi_sdk_sys::four_cc::FourCCVideo;
use ndi_sdk_sys::resolution::Resolution;
use ndi_sdk_sys::sender::{
    InTransmission, NDISender, NDISenderBuilder, NDISenderBuilderError, RawSender, SendFrameError,
    SenderCaptureOutcome, SenderNameError,
};
use ndi_sdk_sys::source::NDIRawSource;
use ndi_sdk_sys::tally::Tally;
use ndi_sdk_sys::util::CString;
use std::sync::Arc;
use std::time::Duration;

const HANDLE: usize = 0x5e4d_e000;

fn sender() -> NDISender {
    NDISenderBuilder::new().build(HANDLE).unwrap()
}

fn frame(width: usize) -> Arc<VideoFrame> {
    let mut frame = VideoFrame::new();
    frame.set_resolution(Resolution::new(width, 2)).unwrap();
    frame.set_four_cc(FourCCVideo::RGBA).unwrap();
    frame.try_alloc().unwrap();
    Arc::new(frame)
}

#[test]
fn a_name_of_300_characters_is_too_long() {
    let name = "n".repeat(300);
    assert_eq!(
        NDISenderBuilder::new().name(&name).err(),
        Some(SenderNameError::TooLong)
    );
}

#[test]
fn sender_names_at_the_limit() {
    let longest = "x".repeat(253);
    let builder = NDISenderBuilder::new().name(&longest).unwrap();
    assert_eq!(builder.name.as_ref().unwrap().count_bytes(), 253);
    assert_eq!(builder.name.as_ref().unwrap().as_bytes(), longest.as_bytes());
    let too_long = "x".repeat(254);
    assert_eq!(
        NDISenderBuilder::new().name(&too_long).err(),
        Some(SenderNameError::TooLong)
    );
    // the limit counts bytes: 127 characters of two bytes are too many
    let wide = "\u{e9}".repeat(127);
    assert_eq!(wide.len(), 254);
    assert_eq!(
        NDISenderBuilder::new().name(&wide).err(),
        Some(SenderNameError::TooLong)
    );
    assert!(NDISenderBuilder::new().name("").is_ok());
}

#[test]
fn a_sender_name_with_a_zero_byte() {
    match NDISenderBuilder::new().name("ab\0cd\0") {
        Err(SenderNameError::NulError(e)) => assert_eq!(e.nul_position(), 2),
        other => panic!("{:?}", other),
    }
    // the zero byte is found before the length is judged
    let name = format!("{}\0", "y".repeat(400));
    match NDISenderBuilder::new().name(&name) {
        Err(SenderNameError::NulError(e)) => assert_eq!(e.nul_position(), 400),
        other => panic!("{:?}", other),
    }
}

#[test]
fn sender_builder_collects_the_options() {
    let builder = NDISenderBuilder::default();
    assert!(builder.name.is_none());
    assert!(builder.groups.is_none());
    assert!(!builder.clock_video);
    assert!(!builder.clock_audio);
    {
        let options = builder.create_options();
        assert!(options.p_ndi_name.is_none());
        assert!(options.p_groups.is_none());
        assert!(!options.clock_video);
        assert!(!options.clock_audio);
    }
    let builder = builder
        .name("My Test Source")
        .unwrap()
        .groups("cameras,studio 1,10am show")
        .clock_video(true)
        .clock_audio(true);
    let options = builder.create_options();
    assert_eq!(options.p_ndi_name.unwrap().as_bytes(), b"My Test Source");
    assert_eq!(
        options.p_groups.unwrap().as_bytes_with_nul(),
        b"cameras,studio 1,10am show\0"
    );
    assert!(options.clock_video);
    assert!(options.clock_audio);
    let builder = builder.clock_video(false);
    assert!(!builder.clock_video);
    assert!(builder.clock_audio);
    assert_eq!(builder.name.unwrap().as_bytes(), b"My Test Source");
}

#[test]
fn sender_build_needs_a_handle() {
    assert_eq!(
        NDISenderBuilder::new().build(0).err(),
        Some(NDISenderBuilderError::CreationFailed)
    );
    let sender = sender();
    assert_eq!(sender.address(), HANDLE);
    assert_eq!(sender.close(), Some(HANDLE));
    assert!(RawSender::new(0).is_none());
    let first = Arc::new(RawSender::new(HANDLE).unwrap());
    let second = first.clone();
    assert_eq!(second.address(), HANDLE);
    assert_eq!(RawSender::release(first), None);
    assert_eq!(RawSender::release(second), Some(HANDLE));
}

#[test]
fn only_frames_that_hold_something_are_sent() {
    let sender = sender();
    let not_sendable = SendFrameError::NotSendable("Frame is not allocated");
    assert_eq!(
        sender.send_video_sync(&VideoFrame::new()).err(),
        Some(SendFrameError::NotSendable("Frame is not allocated"))
    );
    assert_eq!(
        sender.send_video_async(&VideoFrame::new()).err(),
        Some(SendFrameError::NotSendable("Frame is not allocated"))
    );
    assert_eq!(sender.send_audio(&AudioFrame::new()).err(), Some(not_sendable));
    assert_eq!(
        sender.send_metadata(&MetadataFrame::new()).err(),
        Some(SendFrameError::NotSendable("Frame is not allocated"))
    );
    assert_eq!(
        sender.add_connection_metadata(&MetadataFrame::new()).err(),
        Some(SendFrameError::NotSendable("Frame is not allocated"))
    );

    let video = frame(8);
    let raw = sender.send_video_sync(&video).unwrap();
    assert_eq!((raw.xres, raw.yres), (8, 2));
    assert_eq!(raw.four_cc, FourCCVideo::RGBA.to_ffi());
    assert_eq!(raw.line_stride_in_bytes, 32);
    assert!(raw.p_data);
    let raw = sender.send_video_async(&video).unwrap();
    assert_eq!(raw.line_stride_in_bytes, 32);
    let text = MetadataFrame::from_string(CString::new("<hello/>").unwrap());
    assert_eq!(sender.send_metadata(&text).unwrap().length, 9);
    assert_eq!(sender.add_connection_metadata(&text).unwrap().length, 9);
}

#[test]
fn the_frame_in_transmission_is_replaced_after_the_next_send() {
    let sender = sender();
    let mut slot: InTransmission<VideoFrame> = InTransmission::new();
    assert!(!slot.is_busy());

    let frame_a = frame(2);
    let frame_b = frame(4);

    // frame A is sent: once the native call has returned, the slot holds it
    assert!(sender.send_video_async(&frame_a).is_ok());
    assert!(slot.write_in_transmission(Some(frame_a.clone())).is_none());
    assert!(slot.is_busy());
    assert_eq!(Arc::strong_count(&frame_a), 2);

    // frame B is about to be sent: the slot still holds frame A
    assert!(sender.send_video_async(&frame_b).is_ok());
    assert!(slot.is_busy());
    assert_eq!(Arc::strong_count(&frame_a), 2);
    assert_eq!(Arc::strong_count(&frame_b), 1);

    // the native call for frame B has returned: frame A comes out, alive
    let previous = slot.write_in_transmission(Some(frame_b.clone())).unwrap();
    assert!(Arc::ptr_eq(&previous, &frame_a));
    assert_eq!(Arc::strong_count(&frame_a), 2);
    assert_eq!(previous.raw().xres, 2);
    assert!(previous.is_allocated());
    assert_eq!(Arc::strong_count(&frame_b), 2);
    drop(previous);
    assert_eq!(Arc::strong_count(&frame_a), 1);

    // a flush ends the transmission of frame B
    let flushed = sender.flush_async_video(&mut slot).unwrap();
    assert!(Arc::ptr_eq(&flushed, &frame_b));
    assert!(!slot.is_busy());
    assert!(sender.flush_async_video(&mut slot).is_none());
}

#[test]
fn steps_of_the_sender_after_a_send() {
    let sender = sender();
    let mut slot: InTransmission<VideoFrame> = InTransmission::new();
    let frame_a = frame(2);
    let frame_b = frame(4);
    assert!(sender.video_sent_async(&mut slot, frame_a.clone()).is_none());
    assert!(slot.is_busy());
    let previous = sender.video_sent_async(&mut slot, frame_b.clone()).unwrap();
    assert!(Arc::ptr_eq(&previous, &frame_a));
    let previous = sender.video_sent_sync(&mut slot).unwrap();
    assert!(Arc::ptr_eq(&previous, &frame_b));
    assert!(!slot.is_busy());
    assert!(sender.video_sent_sync(&mut slot).is_none());
}

#[test]
fn a_synchronous_send_ends_the_transmission() {
    let sender = sender();
    let mut slot: InTransmission<VideoFrame> = InTransmission::new();
    let frame_a = frame(2);
    slot.write_in_transmission(Some(frame_a.clone()));
    let frame_b = frame(6);
    assert!(sender.send_video_sync(&frame_b).is_ok());
    assert!(slot.is_busy());
    let previous = slot.write_in_transmission(None).unwrap();
    assert!(Arc::ptr_eq(&previous, &frame_a));
    assert!(!slot.is_busy());
}

#[test]
fn metadata_sent_back_by_a_receiver() {
    let sender = sender();
    let mut meta = MetadataFrame::new();
    assert_eq!(
        sender.capture_request(&meta, Duration::from_millis(250)),
        Ok(250)
    );
    assert_eq!(
        sender.capture_request(&meta, Duration::from_secs(5_000_000)),
        Ok(u32::MAX)
    );

    // the timeout was reached
    let outcome = SenderCaptureOutcome {
        frame_type: 0,
        metadata: NDIRawMetadataFrame::new(),
    };
    assert!(outcome.is_possible());
    assert_eq!(sender.recv_metadata(&mut meta, outcome), Ok(None));
    assert!(meta.is_ffi_writable());

    // a frame type that is none of a sender's
    for frame_type in [4, 100, 101, -1] {
        let outcome = SenderCaptureOutcome {
            frame_type,
            metadata: NDIRawMetadataFrame::new(),
        };
        assert!(outcome.is_possible());
        assert_eq!(sender.recv_metadata(&mut meta, outcome), Err(()));
        assert!(meta.is_ffi_writable());
    }

    // a frame arrived
    let outcome = SenderCaptureOutcome {
        frame_type: 3,
        metadata: NDIRawMetadataFrame {
            length: 6,
            timecode: 9,
            p_data: Some(CString::new("<ptz>").unwrap()),
        },
    };
    assert!(outcome.is_possible());
    assert_eq!(sender.recv_metadata(&mut meta, outcome), Ok(Some(())));
    assert!(matches!(meta.guard(), FrameDataDropGuard::Sender(owner) if owner.address() == HANDLE));
    assert!(meta.is_sound());
    assert_eq!(meta.to_str().unwrap().as_bytes(), b"<ptz>");
    assert_eq!(meta.raw().timecode, 9);

    // the frame is full now: no call is made for it
    assert_eq!(
        sender.capture_request(&meta, Duration::from_millis(250)),
        Err(())
    );
    assert_eq!(
        meta.to_ffi_recv_frame_ptr().err().map(|e| format!("{:?}", e)),
        Some("NotWritable(\"Already written by sender\")".to_string())
    );

    // the sender goes, the frame keeps the instance alive
    assert_eq!(sender.close(), None);
    match meta.dealloc() {
        BufferRelease::FreeWithSender(owner) => {
            assert_eq!(owner.address(), HANDLE);
            assert_eq!(RawSender::release(owner), Some(HANDLE));
        }
        other => panic!("{:?}", other),
    }
    assert!(meta.is_ffi_writable());
}

#[test]
fn outcomes_that_a_sender_cannot_have() {
    for frame_type in [1, 2] {
        let outcome = SenderCaptureOutcome {
            frame_type,
            metadata: NDIRawMetadataFrame::new(),
        };
        assert!(!outcome.is_possible());
    }
    // the SDK wrote the descriptor but reported nothing that is known
    let outcome = SenderCaptureOutcome {
        frame_type: 100,
        metadata: NDIRawMetadataFrame {
            length: 2,
            timecode: 0,
            p_data: Some(CString::new("x").unwrap()),
        },
    };
    assert!(!outcome.is_possible());
}

#[test]
fn tally_and_connections() {
    let sender = sender();
    assert_eq!(sender.get_tally(true, false), Tally::new(true, false));
    assert_eq!(sender.get_tally(false, true), Tally::new(false, true));
    let update = sender.get_tally_update(true, true, true);
    assert_eq!(update.value, Tally::new(true, true));
    assert!(update.value_updated());
    assert!(!update.timeout_reached());
    let update = sender.get_tally_update(false, false, false);
    assert_eq!(update.value, Tally::new(false, false));
    assert!(!update.value_updated());
    assert!(update.timeout_reached());
    assert_eq!(sender.get_num_connections_update(0), 0);
    assert_eq!(sender.get_num_connections_update(12), 12);
}

#[test]
fn the_sender_describes_itself() {
    let sender = sender();
    let described = NDIRawSource {
        p_ndi_name: Some(CString::new("HOST (My Test Source)").unwrap()),
        p_url_address: Some(CString::new("10.0.0.2:5961").unwrap()),
    };
    let source = sender.get_source(&described);
    assert_eq!(source.name().as_bytes(), b"HOST (My Test Source)");
    let owned = source.to_owned();
    assert_eq!(owned.name(), "HOST (My Test Source)");
}
