use ndi_sdk_sys::buffer_info::BufferInfo;
use ndi_sdk_sys::enums::NDIFieldedFrameMode;
use ndi_sdk_sys::four_cc::{BufferInfoError, FourCCVideo};
use ndi_sdk_sys::resolution::{Resolution, MAX_PIXEL_BYTES, MAX_SAFE_PIXELS, MAX_SAFE_VALUE};
use ndi_sdk_sys::subsampling::Subsampling;

const PACKED: [FourCCVideo; 5] = [
    FourCCVideo::RGBA,
    FourCCVideo::RGBX,
    FourCCVideo::BGRA,
    FourCCVideo::BGRX,
    FourCCVideo::UYVY,
];

const PLANAR: [FourCCVideo; 6] = [
    FourCCVideo::UYVA,
    FourCCVideo::P216,
    FourCCVideo::PA16,
    FourCCVideo::YV12,
    FourCCVideo::I420,
    FourCCVideo::NV12,
];

const MODES: [NDIFieldedFrameMode; 4] = [
    NDIFieldedFrameMode::Progressive,
    NDIFieldedFrameMode::Interleaved,
    NDIFieldedFrameMode::Field0,
    NDIFieldedFrameMode::Field1,
];

#[test]
fn safety_limits() {
    assert_eq!(MAX_SAFE_VALUE, i32::MAX as usize);
    assert_eq!(MAX_PIXEL_BYTES, 8);
    assert_eq!(MAX_SAFE_PIXELS, 268_435_455);
}

#[test]
fn every_bounded_even_resolution_is_accepted() {
    for (x, y) in [
        (2usize, 1usize),
        (1920, 1080),
        (3840, 2160),
        (7680, 4320),
        (16384, 16382),
        (2, 134_217_727),
        (268_435_454, 1),
    ] {
        assert!(x * y * 8 < 1usize << 31);
        assert!(Resolution::is_safe(x, y), "{}x{}", x, y);
        assert_eq!(Resolution::try_new(x, y), Some(Resolution { x, y }));
    }
}

#[test]
fn unsafe_resolutions_are_refused() {
    for (x, y) in [
        (0usize, 0usize),
        (0, 1080),
        (1920, 0),
        (1921, 1080),
        (1, 1),
        (2, 134_217_728),
        (268_435_456, 1),
        (16384, 16384),
        (i32::MAX as usize, 2),
        (2, i32::MAX as usize),
        (usize::MAX - 1, 2),
        (usize::MAX - 1, usize::MAX),
    ] {
        assert!(!Resolution::is_safe(x, y), "{}x{}", x, y);
        assert_eq!(Resolution::try_new(x, y), None);
    }
}

#[test]
fn resolution_from_and_to_i32() {
    let res = Resolution::from_i32(1280, 720);
    assert_eq!(res, Resolution { x: 1280, y: 720 });
    assert_eq!(res.to_i32(), (1280, 720));
    assert_eq!(res.pixels(), 921_600);
    assert!(Resolution::is_safe_i32(1280, 720));
    assert!(!Resolution::is_safe_i32(-1280, 720));
    assert!(!Resolution::is_safe_i32(1280, -720));
    assert!(!Resolution::is_safe_i32(0, 0));
    assert_eq!(Resolution::try_from_i32(1280, 720), Some(res));
    assert_eq!(Resolution::try_from_i32(-2, 4), None);
    assert_eq!(Resolution::try_from_i32(3, 4), None);
    assert_eq!(Resolution::new_const(640, 480), Resolution { x: 640, y: 480 });
}

#[test]
fn packed_layouts_have_the_expected_sizes() {
    let res = Resolution::new(1920, 1080);
    for cc in PACKED {
        let stride = if cc == FourCCVideo::UYVY { 2 } else { 4 };
        let whole = cc
            .buffer_info(res, NDIFieldedFrameMode::Progressive)
            .unwrap();
        assert_eq!(whole.size, 1920 * 1080 * stride);
        assert_eq!(whole.line_stride, 1920 * stride);
        assert_eq!(whole.resolution, res);
        assert_eq!(whole.field_mode, NDIFieldedFrameMode::Progressive);
        for mode in MODES {
            let info = cc.buffer_info(res, mode).unwrap();
            if mode.is_single_field() {
                assert_eq!(info.size * 2, whole.size);
            } else {
                assert_eq!(info.size, whole.size);
            }
            assert_eq!(info.line_stride, whole.line_stride);
            assert_eq!(info.field_mode, mode);
        }
    }
}

#[test]
fn exact_layout_values() {
    let info = FourCCVideo::RGBX
        .buffer_info(Resolution::new(1920, 1080), NDIFieldedFrameMode::Progressive)
        .unwrap();
    assert_eq!(info.size, 8_294_400);
    assert_eq!(info.line_stride, 7_680);
    assert_eq!(info.subsampling, Subsampling::new(4, 4, 4));

    let info = FourCCVideo::UYVY
        .buffer_info(Resolution::new(1920, 1080), NDIFieldedFrameMode::Field1)
        .unwrap();
    assert_eq!(info.size, 2_073_600);
    assert_eq!(info.line_stride, 3_840);
    assert_eq!(info.subsampling, Subsampling::new(4, 2, 2));

    // the smallest frame: two pixels in one line
    let info = FourCCVideo::BGRA
        .buffer_info(Resolution::new(2, 1), NDIFieldedFrameMode::Field0)
        .unwrap();
    assert_eq!(info.size, 4);
    assert_eq!(info.line_stride, 8);
}

#[test]
fn layout_is_the_same_every_time() {
    let res = Resolution::new(3840, 2160);
    for cc in PACKED.iter().chain(PLANAR.iter()) {
        for mode in MODES {
            let first: Result<BufferInfo, BufferInfoError> = cc.buffer_info(res, mode);
            let second = cc.buffer_info(res, mode);
            let third = cc.buffer_info(res, mode);
            assert_eq!(first, second);
            assert_eq!(second, third);
        }
    }
}

#[test]
fn planar_formats_have_no_layout() {
    let res = Resolution::new(1920, 1080);
    for cc in PLANAR {
        for mode in MODES {
            assert_eq!(
                cc.buffer_info(res, mode),
                Err(BufferInfoError::UnsupportedFourCC(cc))
            );
        }
        assert_eq!(cc.bytes_per_pixel(), None);
        // the format is judged before the resolution
        assert_eq!(
            cc.buffer_info(Resolution { x: 0, y: 0 }, NDIFieldedFrameMode::Progressive),
            Err(BufferInfoError::UnsupportedFourCC(cc))
        );
    }
}

#[test]
fn layout_of_an_unsafe_resolution_is_refused() {
    for cc in PACKED {
        for (x, y) in [(0usize, 0usize), (3, 2), (usize::MAX, usize::MAX), (65536, 65536)] {
            assert_eq!(
                cc.buffer_info(Resolution { x, y }, NDIFieldedFrameMode::Progressive),
                Err(BufferInfoError::InvalidResolution)
            );
        }
    }
}

#[test]
fn pixel_strides_and_chroma() {
    assert_eq!(FourCCVideo::UYVY.bytes_per_pixel(), Some(2));
    assert_eq!(FourCCVideo::RGBA.bytes_per_pixel(), Some(4));
    assert_eq!(FourCCVideo::RGBX.bytes_per_pixel(), Some(4));
    assert_eq!(FourCCVideo::BGRA.bytes_per_pixel(), Some(4));
    assert_eq!(FourCCVideo::BGRX.bytes_per_pixel(), Some(4));
    assert_eq!(FourCCVideo::UYVY.subsampling(), Subsampling::new(4, 2, 2));
    assert_eq!(FourCCVideo::RGBA.subsampling(), Subsampling::none());
    assert_eq!(Subsampling::none(), Subsampling::new(4, 4, 4));
    assert_eq!(Subsampling::default(), Subsampling::new(4, 4, 4));
}

#[test]
fn subsampling_edge_cases() {
    // no chroma samples in the first line: nothing divides by zero
    assert!(!Subsampling::new(4, 0, 0).is_regular());
    assert!(!Subsampling::new(0, 4, 4).is_regular());
    // more chroma than luma
    assert!(!Subsampling::new(2, 4, 4).is_regular());
    // the second line neither repeats the first nor is empty
    assert!(!Subsampling::new(4, 2, 1).is_regular());
    assert!(!Subsampling::new(4, 2, 4).is_regular());
    assert!(Subsampling::new(8, 2, 2).is_regular());
    assert_eq!(Subsampling::new(8, 2, 2).x_grouping(), 4);
    assert_eq!(Subsampling::new(255, 1, 0).x_grouping(), 255);
    assert_eq!(Subsampling::new(255, 1, 0).y_grouping(), 2);
}
