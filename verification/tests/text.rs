use ndi_sdk_sys::resolution::Resolution;
use ndi_sdk_sys::sdk::version;
use ndi_sdk_sys::subsampling::Subsampling;
use ndi_sdk_sys::util::{decimal, CString};

#[test]
fn numbers_in_decimal() {
    assert_eq!(decimal(0), "0");
    assert_eq!(decimal(7), "7");
    assert_eq!(decimal(9), "9");
    assert_eq!(decimal(10), "10");
    assert_eq!(decimal(11), "11");
    assert_eq!(decimal(99), "99");
    assert_eq!(decimal(100), "100");
    assert_eq!(decimal(1080), "1080");
    assert_eq!(decimal(1_234_567_890), "1234567890");
    assert_eq!(decimal(4_294_967_295), "4294967295");
    assert_eq!(decimal(usize::MAX), usize::MAX.to_string());
    for n in (0..100_000).step_by(37) {
        assert_eq!(decimal(n), n.to_string());
    }
}

#[test]
fn resolution_as_text() {
    assert_eq!(Resolution::new(1920, 1080).to_string(), "1920x1080");
    assert_eq!(
        Resolution::new(1920, 1080).to_debug_string(),
        "Resolution(1920x1080)"
    );
    assert_eq!(Resolution::new(2, 1).to_string(), "2x1");
    assert_eq!(Resolution { x: 0, y: 0 }.to_string(), "0x0");
    assert_eq!(Resolution { x: 0, y: 0 }.to_debug_string(), "Resolution(0x0)");
    assert_eq!(Resolution { x: 10, y: 100 }.to_string(), "10x100");
}

#[test]
fn subsampling_as_text() {
    assert_eq!(Subsampling::new(4, 2, 2).to_string(), "4:2:2");
    assert_eq!(Subsampling::new(4, 2, 0).to_string(), "4:2:0");
    assert_eq!(Subsampling::none().to_string(), "4:4:4");
    assert_eq!(Subsampling::new(255, 10, 0).to_string(), "255:10:0");
    assert_eq!(
        Subsampling::new(4, 2, 2).to_debug_string(),
        "Subsampling(4:2:2)"
    );
}

#[test]
fn version_of_the_sdk() {
    assert_eq!(version(None), None);
    let reported = CString::new("NDI SDK WIN64 16:54:08 Jun 12 2024 6.0.1.0").unwrap();
    assert_eq!(
        version(Some(&reported)),
        Some("NDI SDK WIN64 16:54:08 Jun 12 2024 6.0.1.0")
    );
    let empty = CString::new("").unwrap();
    assert_eq!(version(Some(&empty)), Some(""));
    let wide = CString::new("vers\u{ef}on").unwrap();
    assert_eq!(version(Some(&wide)), Some("vers\u{ef}on"));
    // bytes that are no text are no version
    let odd = CString::from_bytes(&[b'6', 0xc3, b'.']).unwrap();
    assert_eq!(version(Some(&odd)), None);
    let cut = CString::from_bytes(&[b'6', 0xe2, 0x82]).unwrap();
    assert_eq!(version(Some(&cut)), None);
}

#[test]
fn test_get_version() {
    // This test is just to ensure that the version can be retrieved.
    // It does not check the actual version string.
    let reported = CString::new("NDI SDK LINUX 09:43:56 Mar  5 2025 6.1.1.0").unwrap();
    let version = version(Some(&reported));
    assert!(version.is_some(), "Failed to get NDI SDK version");
}
