use ndi_sdk_sys::enums::{
    FromFourCCError, NDIBandwidthMode, NDIFieldedFrameMode, NDIPreferredColorFormat, NDIRecvType,
};
use ndi_sdk_sys::enums::NDIPreferredColorFormat::{
    Best, Fastest, BGRX_BGRA, RGBX_RGBA, UYVY_BGRA, UYVY_RGBA,
};
use ndi_sdk_sys::four_cc::FourCCVideo::{BGRA, BGRX, NV12, P216, RGBA, RGBX, UYVY};
use ndi_sdk_sys::four_cc::{FourCC, FourCCAudio, FourCCVideo};

const VIDEO: [FourCCVideo; 11] = [
    FourCCVideo::UYVY,
    FourCCVideo::UYVA,
    FourCCVideo::P216,
    FourCCVideo::PA16,
    FourCCVideo::YV12,
    FourCCVideo::I420,
    FourCCVideo::NV12,
    FourCCVideo::RGBA,
    FourCCVideo::RGBX,
    FourCCVideo::BGRA,
    FourCCVideo::BGRX,
];

const COLOR: [NDIPreferredColorFormat; 6] = [
    NDIPreferredColorFormat::Fastest,
    NDIPreferredColorFormat::Best,
    NDIPreferredColorFormat::BGRX_BGRA,
    NDIPreferredColorFormat::UYVY_BGRA,
    NDIPreferredColorFormat::RGBX_RGBA,
    NDIPreferredColorFormat::UYVY_RGBA,
];

const BANDWIDTH: [NDIBandwidthMode; 4] = [
    NDIBandwidthMode::Default,
    NDIBandwidthMode::Preview,
    NDIBandwidthMode::AudioOnly,
    NDIBandwidthMode::MetadataOnly,
];

const FIELD: [NDIFieldedFrameMode; 4] = [
    NDIFieldedFrameMode::Progressive,
    NDIFieldedFrameMode::Interleaved,
    NDIFieldedFrameMode::Field0,
    NDIFieldedFrameMode::Field1,
];

fn code_of(name: &[u8; 4]) -> i32 {
    i32::from_le_bytes(*name)
}

#[test]
fn every_variant_survives_the_round_trip() {
    for v in VIDEO {
        assert_eq!(FourCCVideo::from_ffi(v.to_ffi()), Some(v));
    }
    assert_eq!(
        FourCCAudio::from_ffi(FourCCAudio::FLTP.to_ffi()),
        Some(FourCCAudio::FLTP)
    );
    for c in COLOR {
        assert_eq!(NDIPreferredColorFormat::from_ffi(c.to_ffi()), Some(c));
    }
    for b in BANDWIDTH {
        assert_eq!(NDIBandwidthMode::from_ffi(b.to_ffi()), Some(b));
    }
    for f in FIELD {
        assert_eq!(NDIFieldedFrameMode::from_ffi(f.to_ffi()), Some(f));
    }
}

#[test]
fn codes_are_distinct_within_each_enum() {
    for (i, a) in VIDEO.iter().enumerate() {
        for b in &VIDEO[i + 1..] {
            assert_ne!(a.to_ffi(), b.to_ffi());
        }
    }
    for (i, a) in COLOR.iter().enumerate() {
        for b in &COLOR[i + 1..] {
            assert_ne!(a.to_ffi(), b.to_ffi());
        }
    }
    for (i, a) in BANDWIDTH.iter().enumerate() {
        for b in &BANDWIDTH[i + 1..] {
            assert_ne!(a.to_ffi(), b.to_ffi());
        }
    }
    for (i, a) in FIELD.iter().enumerate() {
        for b in &FIELD[i + 1..] {
            assert_ne!(a.to_ffi(), b.to_ffi());
        }
    }
}

#[test]
fn video_and_audio_codes_never_meet() {
    for v in VIDEO {
        assert_eq!(FourCCAudio::from_ffi(v.to_ffi()), None);
        assert_eq!(FourCC::from(v).as_audio(), None);
        assert_eq!(FourCC::from(v).as_video(), Some(v));
        assert_eq!(FourCCAudio::try_from(FourCC::from(v)), Err(()));
        assert_eq!(FourCCVideo::try_from(FourCC::from(v)), Ok(v));
    }
    let a = FourCCAudio::FLTP;
    assert_eq!(FourCCVideo::from_ffi(a.to_ffi()), None);
    assert_eq!(FourCC::from(a).as_video(), None);
    assert_eq!(FourCC::from(a).as_audio(), Some(a));
    assert_eq!(FourCCVideo::try_from(FourCC::from(a)), Err(()));
    assert_eq!(FourCCAudio::try_from(FourCC::from(a)), Ok(a));
}

#[test]
fn four_cc_codes_are_no_small_enum_codes() {
    for v in VIDEO {
        assert_eq!(NDIPreferredColorFormat::from_ffi(v.to_ffi()), None);
        assert_eq!(NDIBandwidthMode::from_ffi(v.to_ffi()), None);
        assert_eq!(NDIFieldedFrameMode::from_ffi(v.to_ffi()), None);
    }
    for c in COLOR {
        assert_eq!(FourCCVideo::from_ffi(c.to_ffi()), None);
        assert_eq!(FourCCAudio::from_ffi(c.to_ffi()), None);
    }
    for b in BANDWIDTH {
        assert_eq!(FourCCVideo::from_ffi(b.to_ffi()), None);
        assert_eq!(FourCCAudio::from_ffi(b.to_ffi()), None);
    }
    for f in FIELD {
        assert_eq!(FourCCVideo::from_ffi(f.to_ffi()), None);
        assert_eq!(FourCCAudio::from_ffi(f.to_ffi()), None);
    }
}

#[test]
fn four_cc_codes_pack_their_names() {
    assert_eq!(FourCCVideo::UYVY.to_ffi(), code_of(b"UYVY"));
    assert_eq!(FourCCVideo::UYVA.to_ffi(), code_of(b"UYVA"));
    assert_eq!(FourCCVideo::P216.to_ffi(), code_of(b"P216"));
    assert_eq!(FourCCVideo::PA16.to_ffi(), code_of(b"PA16"));
    assert_eq!(FourCCVideo::YV12.to_ffi(), code_of(b"YV12"));
    assert_eq!(FourCCVideo::I420.to_ffi(), code_of(b"I420"));
    assert_eq!(FourCCVideo::NV12.to_ffi(), code_of(b"NV12"));
    assert_eq!(FourCCVideo::RGBA.to_ffi(), code_of(b"RGBA"));
    assert_eq!(FourCCVideo::RGBX.to_ffi(), code_of(b"RGBX"));
    assert_eq!(FourCCVideo::BGRA.to_ffi(), code_of(b"BGRA"));
    assert_eq!(FourCCVideo::BGRX.to_ffi(), code_of(b"BGRX"));
    assert_eq!(FourCCAudio::FLTP.to_ffi(), code_of(b"FLTp"));
    assert_eq!(FourCCVideo::UYVY.to_ffi(), 0x5956_5955);
    assert_eq!(FourCCAudio::FLTP.to_ffi(), 0x7054_4c46);
}

#[test]
fn small_enum_codes() {
    assert_eq!(NDIPreferredColorFormat::BGRX_BGRA.to_ffi(), 0);
    assert_eq!(NDIPreferredColorFormat::UYVY_BGRA.to_ffi(), 1);
    assert_eq!(NDIPreferredColorFormat::RGBX_RGBA.to_ffi(), 2);
    assert_eq!(NDIPreferredColorFormat::UYVY_RGBA.to_ffi(), 3);
    assert_eq!(NDIPreferredColorFormat::Fastest.to_ffi(), 100);
    assert_eq!(NDIPreferredColorFormat::Best.to_ffi(), 101);
    assert_eq!(NDIBandwidthMode::MetadataOnly.to_ffi(), -10);
    assert_eq!(NDIBandwidthMode::AudioOnly.to_ffi(), 10);
    assert_eq!(NDIBandwidthMode::Preview.to_ffi(), 0);
    assert_eq!(NDIBandwidthMode::Default.to_ffi(), 100);
    assert_eq!(NDIFieldedFrameMode::Interleaved.to_ffi(), 0);
    assert_eq!(NDIFieldedFrameMode::Progressive.to_ffi(), 1);
    assert_eq!(NDIFieldedFrameMode::Field0.to_ffi(), 2);
    assert_eq!(NDIFieldedFrameMode::Field1.to_ffi(), 3);
}

#[test]
fn unknown_codes_are_no_variant() {
    for code in [-1, 4, 5, 99, 102, i32::MIN, i32::MAX] {
        assert_eq!(NDIPreferredColorFormat::from_ffi(code), None);
        assert_eq!(NDIFieldedFrameMode::from_ffi(code), None);
        assert_eq!(FourCCVideo::from_ffi(code), None);
        assert_eq!(FourCCAudio::from_ffi(code), None);
    }
    for code in [-11, -9, 1, 9, 11, 101, i32::MIN, i32::MAX] {
        assert_eq!(NDIBandwidthMode::from_ffi(code), None);
    }
}

#[test]
fn frame_type_codes() {
    assert_eq!(NDIRecvType::from_ffi(0), NDIRecvType::NoFrame);
    assert_eq!(NDIRecvType::from_ffi(1), NDIRecvType::Video);
    assert_eq!(NDIRecvType::from_ffi(2), NDIRecvType::Audio);
    assert_eq!(NDIRecvType::from_ffi(3), NDIRecvType::Metadata);
    assert_eq!(NDIRecvType::from_ffi(4), NDIRecvType::Unknown);
    assert_eq!(NDIRecvType::from_ffi(100), NDIRecvType::StatusChange);
    assert_eq!(NDIRecvType::from_ffi(101), NDIRecvType::SourceChange);
    assert_eq!(NDIRecvType::from_ffi(-1), NDIRecvType::Unknown);
    assert_eq!(NDIRecvType::from_ffi(i32::MAX), NDIRecvType::Unknown);
}

#[test]
fn field_mode_predicates() {
    assert!(NDIFieldedFrameMode::Progressive.is_progressive());
    assert!(!NDIFieldedFrameMode::Progressive.is_fielded());
    assert!(!NDIFieldedFrameMode::Progressive.is_single_field());
    assert!(!NDIFieldedFrameMode::Interleaved.is_progressive());
    assert!(NDIFieldedFrameMode::Interleaved.is_fielded());
    assert!(!NDIFieldedFrameMode::Interleaved.is_single_field());
    for f in [NDIFieldedFrameMode::Field0, NDIFieldedFrameMode::Field1] {
        assert!(!f.is_progressive());
        assert!(f.is_fielded());
        assert!(f.is_single_field());
    }
}

#[test]
fn defaults() {
    assert_eq!(NDIPreferredColorFormat::default(), NDIPreferredColorFormat::Fastest);
    assert_eq!(NDIBandwidthMode::default(), NDIBandwidthMode::Default);
    assert_eq!(NDIFieldedFrameMode::default(), NDIFieldedFrameMode::Progressive);
    assert_eq!(FourCCAudio::default(), FourCCAudio::FLTP);
}

#[test]
fn preferred_formats_name_their_four_ccs() {
    assert_eq!(BGRX_BGRA.without_alpha_four_cc(), Some(BGRX));
    assert_eq!(BGRX_BGRA.with_alpha_four_cc(), Some(BGRA));
    assert_eq!(UYVY_BGRA.without_alpha_four_cc(), Some(UYVY));
    assert_eq!(UYVY_BGRA.with_alpha_four_cc(), Some(BGRA));
    assert_eq!(RGBX_RGBA.without_alpha_four_cc(), Some(RGBX));
    assert_eq!(RGBX_RGBA.with_alpha_four_cc(), Some(RGBA));
    assert_eq!(UYVY_RGBA.without_alpha_four_cc(), Some(UYVY));
    assert_eq!(UYVY_RGBA.with_alpha_four_cc(), Some(RGBA));
    for open in [Fastest, Best] {
        assert_eq!(open.without_alpha_four_cc(), None);
        assert_eq!(open.with_alpha_four_cc(), None);
    }
}

#[test]
fn preferred_format_from_four_ccs() {
    let f = NDIPreferredColorFormat::from_four_cc;
    assert_eq!(f(Some(BGRA), Some(BGRX)), Ok(BGRX_BGRA));
    assert_eq!(f(Some(RGBA), Some(RGBX)), Ok(RGBX_RGBA));
    assert_eq!(f(Some(BGRA), Some(UYVY)), Ok(UYVY_BGRA));
    assert_eq!(f(Some(RGBA), Some(UYVY)), Ok(UYVY_RGBA));
    assert_eq!(f(None, Some(BGRX)), Ok(BGRX_BGRA));
    assert_eq!(f(None, Some(RGBX)), Ok(RGBX_RGBA));
    assert_eq!(f(None, Some(UYVY)), Ok(UYVY_BGRA));
    assert_eq!(f(Some(BGRA), None), Ok(BGRX_BGRA));
    assert_eq!(f(Some(RGBA), None), Ok(RGBX_RGBA));
    assert_eq!(f(None, None), Ok(Fastest));
    assert_eq!(
        f(Some(RGBA), Some(BGRX)),
        Err(FromFourCCError::UnsupportedCombination)
    );
    assert_eq!(
        f(Some(BGRA), Some(RGBX)),
        Err(FromFourCCError::UnsupportedCombination)
    );
}

#[test]
fn preferred_format_errors() {
    let f = NDIPreferredColorFormat::from_four_cc;
    for format in [BGRX, RGBX, UYVY] {
        assert_eq!(
            f(Some(format), None),
            Err(FromFourCCError::WrongAlphaMode {
                format,
                has_alpha: false,
                expected_alpha: true
            })
        );
    }
    for format in [BGRA, RGBA] {
        assert_eq!(
            f(None, Some(format)),
            Err(FromFourCCError::WrongAlphaMode {
                format,
                has_alpha: true,
                expected_alpha: false
            })
        );
    }
    assert_eq!(
        f(Some(NV12), None),
        Err(FromFourCCError::UnsupportedFormat { format: NV12 })
    );
    assert_eq!(
        f(None, Some(P216)),
        Err(FromFourCCError::UnsupportedFormat { format: P216 })
    );
    // the format for frames with alpha is judged first
    assert_eq!(
        f(Some(NV12), Some(P216)),
        Err(FromFourCCError::UnsupportedFormat { format: NV12 })
    );
    assert_eq!(
        f(Some(UYVY), Some(BGRA)),
        Err(FromFourCCError::WrongAlphaMode {
            format: UYVY,
            has_alpha: false,
            expected_alpha: true
        })
    );
}

#[test]
fn found_formats_agree_with_the_request() {
    let all: Vec<Option<FourCCVideo>> = std::iter::once(None)
        .chain(VIDEO.iter().copied().map(Some))
        .collect();
    for with_alpha in &all {
        for without_alpha in &all {
            if let Ok(found) = NDIPreferredColorFormat::from_four_cc(*with_alpha, *without_alpha) {
                if with_alpha.is_some() {
                    assert_eq!(found.with_alpha_four_cc(), *with_alpha);
                }
                if without_alpha.is_some() {
                    assert_eq!(found.without_alpha_four_cc(), *without_alpha);
                }
            }
        }
    }
}
