use ndi_sdk_sys::four_cc::{FourCC, FourCCVideo};

#[test]
fn test_fmt() {
    let fourcc = FourCC::from(FourCCVideo::RGBA);
    assert_eq!(fourcc.to_string(), "RGBA");
    assert_eq!(fourcc.to_debug_string(), "FourCC(RGBA)");
}

#[test]
fn four_cc_keeps_its_code() {
    assert_eq!(FourCC::from_ffi(0x1234_5678).to_ffi(), 0x1234_5678);
    assert_eq!(FourCC::from(-7).to_ffi(), -7);
    assert_eq!(i32::from(FourCC::from_ffi(42)), 42);
    assert_eq!(FourCC::from(FourCCVideo::UYVY).to_ffi(), FourCCVideo::UYVY.to_ffi());
    assert_eq!(FourCC::from_ffi(0x1234_5678).to_le_bytes(), [0x78, 0x56, 0x34, 0x12]);
    assert_eq!(FourCC::from_ffi(-1).to_le_bytes(), [0xff, 0xff, 0xff, 0xff]);
    assert_eq!(FourCC::from_ffi(i32::MIN).to_le_bytes(), [0, 0, 0, 0x80]);
}

#[test]
fn four_cc_text_of_every_format() {
    for (format, name) in [
        (FourCCVideo::UYVY, "UYVY"),
        (FourCCVideo::UYVA, "UYVA"),
        (FourCCVideo::P216, "P216"),
        (FourCCVideo::PA16, "PA16"),
        (FourCCVideo::YV12, "YV12"),
        (FourCCVideo::I420, "I420"),
        (FourCCVideo::NV12, "NV12"),
        (FourCCVideo::RGBA, "RGBA"),
        (FourCCVideo::RGBX, "RGBX"),
        (FourCCVideo::BGRA, "BGRA"),
        (FourCCVideo::BGRX, "BGRX"),
    ] {
        assert_eq!(FourCC::from(format).to_string(), name);
        assert_eq!(
            FourCC::from(format).to_debug_string(),
            format!("FourCC({})", name)
        );
    }
    assert_eq!(
        FourCC::from(ndi_sdk_sys::four_cc::FourCCAudio::FLTP).to_string(),
        "FLTp"
    );
}

#[test]
fn four_cc_text_of_bytes_that_are_no_text() {
    // 0xff is never part of UTF-8: each byte is replaced
    assert_eq!(
        FourCC::from_ffi(-1).to_string(),
        "\u{fffd}\u{fffd}\u{fffd}\u{fffd}"
    );
    // 'A', 0xff, 'B', 0x00
    assert_eq!(
        FourCC::from_ffi(0x0042_ff41).to_string(),
        "A\u{fffd}B\u{0}"
    );
    // a two-byte character followed by two ASCII characters
    assert_eq!(FourCC::from_ffi(0x6261_a9c3).to_string(), "\u{e9}ab");
}
