//! The closed sets of modes that the SDK identifies by integer codes.

use vstd::prelude::*;
use crate::four_cc::FourCCVideo;

verus! {

/// The colour format a receiver asks the SDK to deliver. Every choice but
/// `Fastest` and `Best` names one pixel format for frames without an alpha
/// channel and one for frames with it.
#[non_exhaustive]
#[allow(non_camel_case_types)]
#[derive(Debug, Clone, Copy, PartialEq, Eq, Structural)]
pub enum NDIPreferredColorFormat {
    Fastest,
    Best,
    BGRX_BGRA,
    UYVY_BGRA,
    RGBX_RGBA,
    UYVY_RGBA,
}

/// Why a pair of pixel formats is no preferred colour format.
#[non_exhaustive]
#[derive(Debug, Clone, Copy, PartialEq, Eq, Structural)]
pub enum FromFourCCError {
    /// The SDK delivers no frames in this format.
    UnsupportedFormat { format: FourCCVideo },
    /// The format was given for frames with alpha but has none, or the
    /// other way round.
    WrongAlphaMode { format: FourCCVideo, has_alpha: bool, expected_alpha: bool },
    /// Both formats are deliverable, but not together.
    UnsupportedCombination,
}

/// What a pixel format can be asked for in a preferred colour format.
pub enum AlphaClass {
    /// Deliverable for frames with an alpha channel.
    WithAlpha,
    /// Deliverable for frames without an alpha channel.
    WithoutAlpha,
    /// Not deliverable at all.
    Unsupported,
}

/// The class of each pixel format.
pub open spec fn alpha_class(format: FourCCVideo) -> AlphaClass {
    match format {
        FourCCVideo::BGRA | FourCCVideo::RGBA => AlphaClass::WithAlpha,
        FourCCVideo::BGRX | FourCCVideo::RGBX | FourCCVideo::UYVY => AlphaClass::WithoutAlpha,
        _ => AlphaClass::Unsupported,
    }
}

impl NDIPreferredColorFormat {
    /// The SDK's code of each colour format.
    pub open spec fn code(self) -> i32 {
        match self {
            NDIPreferredColorFormat::BGRX_BGRA => 0,
            NDIPreferredColorFormat::UYVY_BGRA => 1,
            NDIPreferredColorFormat::RGBX_RGBA => 2,
            NDIPreferredColorFormat::UYVY_RGBA => 3,
            NDIPreferredColorFormat::Fastest => 100,
            NDIPreferredColorFormat::Best => 101,
        }
    }

    /// The colour format that a code stands for: the one whose code it is.
    pub open spec fn of_code(value: i32) -> Option<NDIPreferredColorFormat> {
        if exists|v: NDIPreferredColorFormat| v.code() == value {
            Some(choose|v: NDIPreferredColorFormat| v.code() == value)
        } else {
            None
        }
    }

    /// No two of them share a code, so a code stands for at most one.
    pub proof fn lemma_of_code(value: i32)
        ensures
            match Self::of_code(value) {
                Some(v) => v.code() == value && forall|w: NDIPreferredColorFormat| w.code() == value ==> w == v,
                None => forall|w: NDIPreferredColorFormat| w.code() != value,
            },
    {
    }

    /// The codes, written out.
    pub proof fn lemma_codes()
        ensures
            NDIPreferredColorFormat::BGRX_BGRA.code() == 0,
            NDIPreferredColorFormat::UYVY_BGRA.code() == 1,
            NDIPreferredColorFormat::RGBX_RGBA.code() == 2,
            NDIPreferredColorFormat::UYVY_RGBA.code() == 3,
            NDIPreferredColorFormat::Fastest.code() == 100,
            NDIPreferredColorFormat::Best.code() == 101,
    {
    }

    /// Reading the code of any of them gives it back.
    pub proof fn lemma_round_trip(self)
        ensures
            Self::of_code(self.code()) == Some(self),
    {
        Self::lemma_of_code(self.code());
    }

    /// The format of frames without alpha, where the choice fixes it.
    pub open spec fn opaque_format(self) -> Option<FourCCVideo> {
        match self {
            NDIPreferredColorFormat::BGRX_BGRA => Some(FourCCVideo::BGRX),
            NDIPreferredColorFormat::RGBX_RGBA => Some(FourCCVideo::RGBX),
            NDIPreferredColorFormat::UYVY_BGRA => Some(FourCCVideo::UYVY),
            NDIPreferredColorFormat::UYVY_RGBA => Some(FourCCVideo::UYVY),
            _ => None,
        }
    }

    /// The format of frames with alpha, where the choice fixes it.
    pub open spec fn alpha_format(self) -> Option<FourCCVideo> {
        match self {
            NDIPreferredColorFormat::BGRX_BGRA => Some(FourCCVideo::BGRA),
            NDIPreferredColorFormat::UYVY_BGRA => Some(FourCCVideo::BGRA),
            NDIPreferredColorFormat::RGBX_RGBA => Some(FourCCVideo::RGBA),
            NDIPreferredColorFormat::UYVY_RGBA => Some(FourCCVideo::RGBA),
            _ => None,
        }
    }

    /// The choice delivers what a request asks for, `None` standing for
    /// "don't care".
    pub open spec fn serves(
        self,
        with_alpha: Option<FourCCVideo>,
        without_alpha: Option<FourCCVideo>,
    ) -> bool {
        &&& with_alpha is Some ==> self.alpha_format() == with_alpha
        &&& without_alpha is Some ==> self.opaque_format() == without_alpha
    }

    /// The choice is the first in the SDK's order that serves a request.
    pub open spec fn serves_first(
        self,
        with_alpha: Option<FourCCVideo>,
        without_alpha: Option<FourCCVideo>,
    ) -> bool {
        &&& self.serves(with_alpha, without_alpha)
        &&& forall|other: NDIPreferredColorFormat| #[trigger]
            other.serves(with_alpha, without_alpha) ==> self.code() <= other.code()
    }

    /// The colour format that serves a request: `Fastest` if the request
    /// asks for nothing, and else the first choice in the SDK's order that
    /// delivers what is asked, if there is any.
    pub open spec fn serving(
        with_alpha: Option<FourCCVideo>,
        without_alpha: Option<FourCCVideo>,
    ) -> Option<NDIPreferredColorFormat> {
        if with_alpha is None && without_alpha is None {
            Some(NDIPreferredColorFormat::Fastest)
        } else if exists|choice: NDIPreferredColorFormat|
            choice.serves_first(with_alpha, without_alpha) {
            Some(
                choose|choice: NDIPreferredColorFormat|
                    choice.serves_first(with_alpha, without_alpha),
            )
        } else {
            None
        }
    }

    /// A request is served by at most one first choice; none serves a
    /// request that asks for two formats which no choice pairs.
    pub proof fn lemma_serving(with_alpha: Option<FourCCVideo>, without_alpha: Option<FourCCVideo>)
        requires
            with_alpha is Some || without_alpha is Some,
        ensures
            match Self::serving(with_alpha, without_alpha) {
                Some(choice) => {
                    &&& choice.serves_first(with_alpha, without_alpha)
                    &&& forall|other: NDIPreferredColorFormat| #[trigger]
                        other.serves_first(with_alpha, without_alpha) ==> other == choice
                },
                None => forall|other: NDIPreferredColorFormat| !#[trigger] other.serves(
                    with_alpha,
                    without_alpha,
                ),
            },
    {
        Self::lemma_codes();
        if exists|choice: NDIPreferredColorFormat| choice.serves_first(with_alpha, without_alpha) {
            let choice = choose|choice: NDIPreferredColorFormat|
                choice.serves_first(with_alpha, without_alpha);
            assert forall|other: NDIPreferredColorFormat| #[trigger]
                other.serves_first(with_alpha, without_alpha) implies other == choice by {
                assert(other.serves(with_alpha, without_alpha));
                assert(choice.serves(with_alpha, without_alpha));
                assert(other.code() <= choice.code());
                assert(choice.code() <= other.code());
            }
        } else {
            assert forall|other: NDIPreferredColorFormat| !#[trigger] other.serves(
                with_alpha,
                without_alpha,
            ) by {
                if other.serves(with_alpha, without_alpha) {
                    // the first of the four pairing choices that serves is a
                    // first choice
                    let c0 = NDIPreferredColorFormat::BGRX_BGRA;
                    let c1 = NDIPreferredColorFormat::UYVY_BGRA;
                    let c2 = NDIPreferredColorFormat::RGBX_RGBA;
                    let c3 = NDIPreferredColorFormat::UYVY_RGBA;
                    if c0.serves(with_alpha, without_alpha) {
                        assert(c0.serves_first(with_alpha, without_alpha));
                    } else if c1.serves(with_alpha, without_alpha) {
                        assert(c1.serves_first(with_alpha, without_alpha));
                    } else if c2.serves(with_alpha, without_alpha) {
                        assert(c2.serves_first(with_alpha, without_alpha));
                    } else {
                        assert(c3.serves(with_alpha, without_alpha));
                        assert(c3.serves_first(with_alpha, without_alpha));
                    }
                }
            }
        }
    }

    /// The colour format that serves each request of deliverable formats,
    /// written out.
    pub proof fn lemma_serving_table()
        ensures
            Self::serving(None, None) == Some(NDIPreferredColorFormat::Fastest),
            Self::serving(Some(FourCCVideo::BGRA), None) == Some(
                NDIPreferredColorFormat::BGRX_BGRA,
            ),
            Self::serving(Some(FourCCVideo::RGBA), None) == Some(
                NDIPreferredColorFormat::RGBX_RGBA,
            ),
            Self::serving(None, Some(FourCCVideo::BGRX)) == Some(
                NDIPreferredColorFormat::BGRX_BGRA,
            ),
            Self::serving(None, Some(FourCCVideo::RGBX)) == Some(
                NDIPreferredColorFormat::RGBX_RGBA,
            ),
            Self::serving(None, Some(FourCCVideo::UYVY)) == Some(
                NDIPreferredColorFormat::UYVY_BGRA,
            ),
            Self::serving(Some(FourCCVideo::BGRA), Some(FourCCVideo::BGRX)) == Some(
                NDIPreferredColorFormat::BGRX_BGRA,
            ),
            Self::serving(Some(FourCCVideo::BGRA), Some(FourCCVideo::UYVY)) == Some(
                NDIPreferredColorFormat::UYVY_BGRA,
            ),
            Self::serving(Some(FourCCVideo::RGBA), Some(FourCCVideo::RGBX)) == Some(
                NDIPreferredColorFormat::RGBX_RGBA,
            ),
            Self::serving(Some(FourCCVideo::RGBA), Some(FourCCVideo::UYVY)) == Some(
                NDIPreferredColorFormat::UYVY_RGBA,
            ),
            Self::serving(Some(FourCCVideo::BGRA), Some(FourCCVideo::RGBX)) is None,
            Self::serving(Some(FourCCVideo::RGBA), Some(FourCCVideo::BGRX)) is None,
    {
        Self::lemma_codes();
        Self::lemma_row(Some(FourCCVideo::BGRA), None);
        Self::lemma_row(Some(FourCCVideo::RGBA), None);
        Self::lemma_row(None, Some(FourCCVideo::BGRX));
        Self::lemma_row(None, Some(FourCCVideo::RGBX));
        Self::lemma_row(None, Some(FourCCVideo::UYVY));
        Self::lemma_row(Some(FourCCVideo::BGRA), Some(FourCCVideo::BGRX));
        Self::lemma_row(Some(FourCCVideo::BGRA), Some(FourCCVideo::UYVY));
        Self::lemma_row(Some(FourCCVideo::RGBA), Some(FourCCVideo::RGBX));
        Self::lemma_row(Some(FourCCVideo::RGBA), Some(FourCCVideo::UYVY));
        Self::lemma_row(Some(FourCCVideo::BGRA), Some(FourCCVideo::RGBX));
        Self::lemma_row(Some(FourCCVideo::RGBA), Some(FourCCVideo::BGRX));
    }

    /// Among the four choices that pair two formats, the first that serves a
    /// request is the one that serves it first.
    pub proof fn lemma_row(with_alpha: Option<FourCCVideo>, without_alpha: Option<FourCCVideo>)
        requires
            with_alpha is Some || without_alpha is Some,
        ensures
            Self::serving(with_alpha, without_alpha) == if NDIPreferredColorFormat::BGRX_BGRA.serves(
                with_alpha,
                without_alpha,
            ) {
                Some(NDIPreferredColorFormat::BGRX_BGRA)
            } else if NDIPreferredColorFormat::UYVY_BGRA.serves(with_alpha, without_alpha) {
                Some(NDIPreferredColorFormat::UYVY_BGRA)
            } else if NDIPreferredColorFormat::RGBX_RGBA.serves(with_alpha, without_alpha) {
                Some(NDIPreferredColorFormat::RGBX_RGBA)
            } else if NDIPreferredColorFormat::UYVY_RGBA.serves(with_alpha, without_alpha) {
                Some(NDIPreferredColorFormat::UYVY_RGBA)
            } else {
                None
            },
    {
        Self::lemma_codes();
        Self::lemma_serving(with_alpha, without_alpha);
        let c0 = NDIPreferredColorFormat::BGRX_BGRA;
        let c1 = NDIPreferredColorFormat::UYVY_BGRA;
        let c2 = NDIPreferredColorFormat::RGBX_RGBA;
        let c3 = NDIPreferredColorFormat::UYVY_RGBA;
        if c0.serves(with_alpha, without_alpha) {
            assert(c0.serves_first(with_alpha, without_alpha));
        } else if c1.serves(with_alpha, without_alpha) {
            assert(c1.serves_first(with_alpha, without_alpha));
        } else if c2.serves(with_alpha, without_alpha) {
            assert(c2.serves_first(with_alpha, without_alpha));
        } else if c3.serves(with_alpha, without_alpha) {
            assert(c3.serves_first(with_alpha, without_alpha));
        } else {
            assert(!NDIPreferredColorFormat::Fastest.serves(with_alpha, without_alpha));
            assert(!NDIPreferredColorFormat::Best.serves(with_alpha, without_alpha));
        }
    }

    /// What [`NDIPreferredColorFormat::from_four_cc`] returns. The format given
    /// for frames with alpha is judged first, then the one for frames without,
    /// then the pair.
    pub open spec fn from_four_cc_spec(
        with_alpha: Option<FourCCVideo>,
        without_alpha: Option<FourCCVideo>,
    ) -> Result<NDIPreferredColorFormat, FromFourCCError> {
        match Self::misplaced(with_alpha, true) {
            Some(error) => Err(error),
            None => match Self::misplaced(without_alpha, false) {
                Some(error) => Err(error),
                None => match Self::serving(with_alpha, without_alpha) {
                    Some(choice) => Ok(choice),
                    None => Err(FromFourCCError::UnsupportedCombination),
                },
            },
        }
    }

    /// What is wrong with asking for `format` in frames that have an alpha
    /// channel (`expected_alpha`) or have none.
    pub open spec fn misplaced(format: Option<FourCCVideo>, expected_alpha: bool) -> Option<
        FromFourCCError,
    > {
        match format {
            None => None,
            Some(format) => match alpha_class(format) {
                AlphaClass::Unsupported => Some(FromFourCCError::UnsupportedFormat { format }),
                AlphaClass::WithAlpha => if expected_alpha {
                    None
                } else {
                    Some(
                        FromFourCCError::WrongAlphaMode {
                            format,
                            has_alpha: true,
                            expected_alpha: false,
                        },
                    )
                },
                AlphaClass::WithoutAlpha => if expected_alpha {
                    Some(
                        FromFourCCError::WrongAlphaMode {
                            format,
                            has_alpha: false,
                            expected_alpha: true,
                        },
                    )
                } else {
                    None
                },
            },
        }
    }

    pub fn to_ffi(self) -> (code: i32)
        ensures
            code == self.code(),
    {
        match self {
            NDIPreferredColorFormat::BGRX_BGRA => 0,
            NDIPreferredColorFormat::UYVY_BGRA => 1,
            NDIPreferredColorFormat::RGBX_RGBA => 2,
            NDIPreferredColorFormat::UYVY_RGBA => 3,
            NDIPreferredColorFormat::Fastest => 100,
            NDIPreferredColorFormat::Best => 101,
        }
    }

    /// The colour format with the given code, if there is one.
    pub fn from_ffi(value: i32) -> (found: Option<NDIPreferredColorFormat>)
        ensures
            found == Self::of_code(value),
    {
        proof {
            Self::lemma_of_code(value);
            Self::lemma_codes();
        }
        if value == 0 {
            Some(NDIPreferredColorFormat::BGRX_BGRA)
        } else if value == 1 {
            Some(NDIPreferredColorFormat::UYVY_BGRA)
        } else if value == 2 {
            Some(NDIPreferredColorFormat::RGBX_RGBA)
        } else if value == 3 {
            Some(NDIPreferredColorFormat::UYVY_RGBA)
        } else if value == 100 {
            Some(NDIPreferredColorFormat::Fastest)
        } else if value == 101 {
            Some(NDIPreferredColorFormat::Best)
        } else {
            None
        }
    }

    /// Returns the FourCC type that will be used for frames without alpha
    /// channel. `None` means that it cannot be known before a frame arrives.
    pub fn without_alpha_four_cc(self) -> (format: Option<FourCCVideo>)
        ensures
            format == self.opaque_format(),
    {
        match self {
            NDIPreferredColorFormat::BGRX_BGRA => Some(FourCCVideo::BGRX),
            NDIPreferredColorFormat::RGBX_RGBA => Some(FourCCVideo::RGBX),
            NDIPreferredColorFormat::UYVY_BGRA | NDIPreferredColorFormat::UYVY_RGBA => Some(
                FourCCVideo::UYVY,
            ),
            _ => None,
        }
    }

    /// Returns the FourCC type that will be used for frames with alpha
    /// channel. `None` means that it cannot be known before a frame arrives.
    pub fn with_alpha_four_cc(self) -> (format: Option<FourCCVideo>)
        ensures
            format == self.alpha_format(),
    {
        match self {
            NDIPreferredColorFormat::BGRX_BGRA | NDIPreferredColorFormat::UYVY_BGRA => Some(
                FourCCVideo::BGRA,
            ),
            NDIPreferredColorFormat::RGBX_RGBA | NDIPreferredColorFormat::UYVY_RGBA => Some(
                FourCCVideo::RGBA,
            ),
            _ => None,
        }
    }

    /// Tries to find the preferred colour format for the given pixel formats.
    /// The SDK allows only a few combinations. A `None` argument means "don't
    /// care".
    pub fn from_four_cc(
        with_alpha: Option<FourCCVideo>,
        without_alpha: Option<FourCCVideo>,
    ) -> (choice: Result<NDIPreferredColorFormat, FromFourCCError>)
        ensures
            choice == Self::from_four_cc_spec(with_alpha, without_alpha),
            choice matches Ok(found) ==> {
                &&& with_alpha is Some ==> found.alpha_format() == with_alpha
                &&& without_alpha is Some ==> found.opaque_format() == without_alpha
            },
    {
        if let Some(format) = with_alpha {
            match format {
                FourCCVideo::BGRA | FourCCVideo::RGBA => {},
                FourCCVideo::BGRX | FourCCVideo::RGBX | FourCCVideo::UYVY => {
                    return Err(
                        FromFourCCError::WrongAlphaMode {
                            format,
                            has_alpha: false,
                            expected_alpha: true,
                        },
                    );
                },
                _ => {
                    return Err(FromFourCCError::UnsupportedFormat { format });
                },
            }
        }
        if let Some(format) = without_alpha {
            match format {
                FourCCVideo::BGRX | FourCCVideo::RGBX | FourCCVideo::UYVY => {},
                FourCCVideo::BGRA | FourCCVideo::RGBA => {
                    return Err(
                        FromFourCCError::WrongAlphaMode {
                            format,
                            has_alpha: true,
                            expected_alpha: false,
                        },
                    );
                },
                _ => {
                    return Err(FromFourCCError::UnsupportedFormat { format });
                },
            }
        }
        proof {
            if with_alpha is Some || without_alpha is Some {
                Self::lemma_row(with_alpha, without_alpha);
            }
        }
        match (without_alpha, with_alpha) {
            (Some(FourCCVideo::BGRX), Some(FourCCVideo::BGRA)) => Ok(
                NDIPreferredColorFormat::BGRX_BGRA,
            ),
            (Some(FourCCVideo::RGBX), Some(FourCCVideo::RGBA)) => Ok(
                NDIPreferredColorFormat::RGBX_RGBA,
            ),
            (Some(FourCCVideo::UYVY), Some(FourCCVideo::BGRA)) => Ok(
                NDIPreferredColorFormat::UYVY_BGRA,
            ),
            (Some(FourCCVideo::UYVY), Some(FourCCVideo::RGBA)) => Ok(
                NDIPreferredColorFormat::UYVY_RGBA,
            ),
            (Some(FourCCVideo::BGRX), None) => Ok(NDIPreferredColorFormat::BGRX_BGRA),
            (Some(FourCCVideo::RGBX), None) => Ok(NDIPreferredColorFormat::RGBX_RGBA),
            (Some(FourCCVideo::UYVY), None) => Ok(NDIPreferredColorFormat::UYVY_BGRA),
            (None, Some(FourCCVideo::BGRA)) => Ok(NDIPreferredColorFormat::BGRX_BGRA),
            (None, Some(FourCCVideo::RGBA)) => Ok(NDIPreferredColorFormat::RGBX_RGBA),
            (None, None) => Ok(NDIPreferredColorFormat::Fastest),
            _ => Err(FromFourCCError::UnsupportedCombination),
        }
    }
}

impl Default for NDIPreferredColorFormat {
    fn default() -> (format: NDIPreferredColorFormat)
        ensures
            format == NDIPreferredColorFormat::Fastest,
    {
        NDIPreferredColorFormat::Fastest
    }
}

/// How much of a stream a receiver asks for.
#[non_exhaustive]
#[derive(Debug, Clone, Copy, PartialEq, Eq, Structural)]
pub enum NDIBandwidthMode {
    /// Video, audio and metadata at full quality.
    Default,
    /// Video at reduced resolution, audio and metadata.
    Preview,
    /// Audio and metadata.
    AudioOnly,
    /// Metadata alone.
    MetadataOnly,
}

impl NDIBandwidthMode {
    /// The SDK's code of each bandwidth mode.
    pub open spec fn code(self) -> i32 {
        match self {
            NDIBandwidthMode::Default => 100,
            NDIBandwidthMode::Preview => 0,
            NDIBandwidthMode::AudioOnly => 10,
            NDIBandwidthMode::MetadataOnly => -10i32,
        }
    }

    /// The bandwidth mode that a code stands for: the one whose code it is.
    pub open spec fn of_code(value: i32) -> Option<NDIBandwidthMode> {
        if exists|v: NDIBandwidthMode| v.code() == value {
            Some(choose|v: NDIBandwidthMode| v.code() == value)
        } else {
            None
        }
    }

    /// No two of them share a code, so a code stands for at most one.
    pub proof fn lemma_of_code(value: i32)
        ensures
            match Self::of_code(value) {
                Some(v) => v.code() == value && forall|w: NDIBandwidthMode| w.code() == value ==> w == v,
                None => forall|w: NDIBandwidthMode| w.code() != value,
            },
    {
    }

    /// The codes, written out.
    pub proof fn lemma_codes()
        ensures
            NDIBandwidthMode::Default.code() == 100,
            NDIBandwidthMode::Preview.code() == 0,
            NDIBandwidthMode::AudioOnly.code() == 10,
            NDIBandwidthMode::MetadataOnly.code() == -10,
    {
    }

    /// Reading the code of any of them gives it back.
    pub proof fn lemma_round_trip(self)
        ensures
            Self::of_code(self.code()) == Some(self),
    {
        Self::lemma_of_code(self.code());
    }

    pub fn to_ffi(self) -> (code: i32)
        ensures
            code == self.code(),
    {
        match self {
            NDIBandwidthMode::Default => 100,
            NDIBandwidthMode::Preview => 0,
            NDIBandwidthMode::AudioOnly => 10,
            NDIBandwidthMode::MetadataOnly => -10,
        }
    }

    /// The bandwidth mode with the given code, if there is one.
    pub fn from_ffi(value: i32) -> (found: Option<NDIBandwidthMode>)
        ensures
            found == Self::of_code(value),
    {
        proof {
            Self::lemma_of_code(value);
            Self::lemma_codes();
        }
        if value == 100 {
            Some(NDIBandwidthMode::Default)
        } else if value == 0 {
            Some(NDIBandwidthMode::Preview)
        } else if value == 10 {
            Some(NDIBandwidthMode::AudioOnly)
        } else if value == -10 {
            Some(NDIBandwidthMode::MetadataOnly)
        } else {
            None
        }
    }
}

impl Default for NDIBandwidthMode {
    fn default() -> (mode: NDIBandwidthMode)
        ensures
            mode == NDIBandwidthMode::Default,
    {
        NDIBandwidthMode::Default
    }
}

/// Video frames can be fielded (even and odd lines are sent in separate
/// frames); this enum describes the fielding mode.
#[non_exhaustive]
#[derive(Debug, Clone, Copy, PartialEq, Eq, Hash, Structural)]
pub enum NDIFieldedFrameMode {
    /// Progressive (non-fielded) video frame.
    Progressive,
    /// A frame made of two fields: the upper field comes first, the lower
    /// second.
    Interleaved,
    /// Field 0 alone: the first temporal, upper field.
    Field0,
    /// Field 1 alone: the second temporal, lower field.
    Field1,
}

impl NDIFieldedFrameMode {
    /// The SDK's code of each field mode.
    pub open spec fn code(self) -> i32 {
        match self {
            NDIFieldedFrameMode::Progressive => 1,
            NDIFieldedFrameMode::Interleaved => 0,
            NDIFieldedFrameMode::Field0 => 2,
            NDIFieldedFrameMode::Field1 => 3,
        }
    }

    /// The field mode that a code stands for: the one whose code it is.
    pub open spec fn of_code(value: i32) -> Option<NDIFieldedFrameMode> {
        if exists|v: NDIFieldedFrameMode| v.code() == value {
            Some(choose|v: NDIFieldedFrameMode| v.code() == value)
        } else {
            None
        }
    }

    /// No two of them share a code, so a code stands for at most one.
    pub proof fn lemma_of_code(value: i32)
        ensures
            match Self::of_code(value) {
                Some(v) => v.code() == value && forall|w: NDIFieldedFrameMode| w.code() == value ==> w == v,
                None => forall|w: NDIFieldedFrameMode| w.code() != value,
            },
    {
    }

    /// The codes, written out.
    pub proof fn lemma_codes()
        ensures
            NDIFieldedFrameMode::Progressive.code() == 1,
            NDIFieldedFrameMode::Interleaved.code() == 0,
            NDIFieldedFrameMode::Field0.code() == 2,
            NDIFieldedFrameMode::Field1.code() == 3,
    {
    }

    /// Reading the code of any of them gives it back.
    pub proof fn lemma_round_trip(self)
        ensures
            Self::of_code(self.code()) == Some(self),
    {
        Self::lemma_of_code(self.code());
    }

    /// The frame holds one field of a pair, that is half the lines.
    pub open spec fn single_field(self) -> bool {
        self is Field0 || self is Field1
    }

    pub fn to_ffi(self) -> (code: i32)
        ensures
            code == self.code(),
    {
        match self {
            NDIFieldedFrameMode::Progressive => 1,
            NDIFieldedFrameMode::Interleaved => 0,
            NDIFieldedFrameMode::Field0 => 2,
            NDIFieldedFrameMode::Field1 => 3,
        }
    }

    /// The field mode with the given code, if there is one.
    pub fn from_ffi(value: i32) -> (found: Option<NDIFieldedFrameMode>)
        ensures
            found == Self::of_code(value),
    {
        proof {
            Self::lemma_of_code(value);
            Self::lemma_codes();
        }
        if value == 1 {
            Some(NDIFieldedFrameMode::Progressive)
        } else if value == 0 {
            Some(NDIFieldedFrameMode::Interleaved)
        } else if value == 2 {
            Some(NDIFieldedFrameMode::Field0)
        } else if value == 3 {
            Some(NDIFieldedFrameMode::Field1)
        } else {
            None
        }
    }

    pub fn is_progressive(self) -> (b: bool)
        ensures
            b == (self is Progressive),
    {
        matches!(self, NDIFieldedFrameMode::Progressive)
    }

    pub fn is_fielded(self) -> (b: bool)
        ensures
            b == !(self is Progressive),
    {
        !self.is_progressive()
    }

    pub fn is_single_field(self) -> (b: bool)
        ensures
            b == self.single_field(),
    {
        matches!(self, NDIFieldedFrameMode::Field0 | NDIFieldedFrameMode::Field1)
    }
}

impl Default for NDIFieldedFrameMode {
    fn default() -> (mode: NDIFieldedFrameMode)
        ensures
            mode == NDIFieldedFrameMode::Progressive,
    {
        NDIFieldedFrameMode::Progressive
    }
}

/// What a capture call delivered.
#[must_use]
#[non_exhaustive]
#[derive(Debug, Clone, Copy, Hash, PartialEq, Eq, Structural)]
pub enum NDIRecvType {
    /// A video frame was received.
    Video,
    /// An audio frame was received.
    Audio,
    /// A metadata frame was received.
    Metadata,
    /// No frame was received, most likely because the timeout was reached.
    NoFrame,
    /// The SDK returned a frame type that is not recognized.
    Unknown,
    /// No frame was received, but the status of the connection changed.
    /// Things like the web control URL could have changed.
    StatusChange,
    /// The source the receiver is connected to has changed.
    SourceChange,
}

impl NDIRecvType {
    /// The meaning of each frame type code of the SDK. Every code it does
    /// not define, and the one it defines for errors, is `Unknown`.
    pub open spec fn of_code(value: i32) -> NDIRecvType {
        if value == 0 {
            NDIRecvType::NoFrame
        } else if value == 1 {
            NDIRecvType::Video
        } else if value == 2 {
            NDIRecvType::Audio
        } else if value == 3 {
            NDIRecvType::Metadata
        } else if value == 100 {
            NDIRecvType::StatusChange
        } else if value == 101 {
            NDIRecvType::SourceChange
        } else {
            NDIRecvType::Unknown
        }
    }

    /// A frame was written into one of the caller's slots.
    pub open spec fn carries_frame(self) -> bool {
        self is Video || self is Audio || self is Metadata
    }

    /// Reads the frame type code that a capture call returned.
    pub fn from_ffi(value: i32) -> (kind: NDIRecvType)
        ensures
            kind == Self::of_code(value),
    {
        if value == 0 {
            NDIRecvType::NoFrame
        } else if value == 1 {
            NDIRecvType::Video
        } else if value == 2 {
            NDIRecvType::Audio
        } else if value == 3 {
            NDIRecvType::Metadata
        } else if value == 100 {
            NDIRecvType::StatusChange
        } else if value == 101 {
            NDIRecvType::SourceChange
        } else {
            NDIRecvType::Unknown
        }
    }
}

/// Why a capture call delivered nothing usable.
#[non_exhaustive]
#[derive(Debug, Clone, Copy, Hash, PartialEq, Eq, Structural)]
pub enum NDIRecvError {
    /// The SDK reported a frame type that this library does not know.
    UnknownType,
}

} // verus!
