//! FourCC (Four Character Code) is a sequence of four bytes used to uniquely
//! identify data formats.

use vstd::prelude::*;
use vstd::string::*;
use crate::buffer_info::BufferInfo;
use crate::enums::{NDIBandwidthMode, NDIFieldedFrameMode, NDIPreferredColorFormat};
use crate::resolution::{Resolution, lemma_safe_bounds};
use crate::subsampling::Subsampling;

verus! {

/// The code of four characters: the first is the lowest byte.
pub open spec fn pack(a: char, b: char, c: char, d: char) -> int {
    a as int + 0x100 * (b as int) + 0x1_0000 * (c as int) + 0x100_0000 * (d as int)
}

/// Possible FourCC values for video frames.
#[non_exhaustive]
#[allow(non_camel_case_types)]
#[derive(Debug, Clone, Copy, Hash, PartialEq, Eq, Structural)]
pub enum FourCCVideo {
    /// Packed YCbCr 4:2:2, 8 bit.
    UYVY,
    /// `UYVY` followed by a plane of alpha.
    UYVA,
    /// Planar YCbCr 4:2:2, 16 bit.
    P216,
    /// `P216` followed by a plane of alpha.
    PA16,
    /// Planar YCbCr 4:2:0, 8 bit, Y V U.
    YV12,
    /// Planar YCbCr 4:2:0, 8 bit, Y U V.
    I420,
    /// Planar YCbCr 4:2:0, 8 bit, chroma interleaved.
    NV12,
    /// Red, Green, Blue, Alpha (8bit)
    RGBA,
    /// RGBA with ignored alpha channel
    RGBX,
    /// Blue, Green, Red, Alpha (8bit)
    BGRA,
    /// BGRA with ignored alpha channel
    BGRX,
}

/// Why no memory layout could be computed.
#[non_exhaustive]
#[derive(Debug, Clone, Copy, PartialEq, Eq, Structural)]
pub enum BufferInfoError {
    /// There is no layout for this FourCC: it is planar.
    UnsupportedFourCC(FourCCVideo),
    /// The frame names no FourCC that this library knows.
    UnspecifiedFourCC,
    /// The dimensions are no safe resolution: one is zero, the width is odd,
    /// or the buffer would be too large for the SDK.
    InvalidResolution,
}

impl FourCCVideo {
    /// The four characters that name the format.
    pub open spec fn name(self) -> Seq<char> {
        match self {
            FourCCVideo::UYVY => seq!['U', 'Y', 'V', 'Y'],
            FourCCVideo::UYVA => seq!['U', 'Y', 'V', 'A'],
            FourCCVideo::P216 => seq!['P', '2', '1', '6'],
            FourCCVideo::PA16 => seq!['P', 'A', '1', '6'],
            FourCCVideo::YV12 => seq!['Y', 'V', '1', '2'],
            FourCCVideo::I420 => seq!['I', '4', '2', '0'],
            FourCCVideo::NV12 => seq!['N', 'V', '1', '2'],
            FourCCVideo::RGBA => seq!['R', 'G', 'B', 'A'],
            FourCCVideo::RGBX => seq!['R', 'G', 'B', 'X'],
            FourCCVideo::BGRA => seq!['B', 'G', 'R', 'A'],
            FourCCVideo::BGRX => seq!['B', 'G', 'R', 'X'],
        }
    }

    /// The SDK's code of each format: its name, packed.
    pub open spec fn code(self) -> i32 {
        let n = self.name();
        pack(n[0], n[1], n[2], n[3]) as i32
    }

    /// The format that a code stands for: the one whose code it is.
    pub open spec fn of_code(value: i32) -> Option<FourCCVideo> {
        if exists|v: FourCCVideo| v.code() == value {
            Some(choose|v: FourCCVideo| v.code() == value)
        } else {
            None
        }
    }

    /// Bytes of one pixel, for the packed formats. The planar formats have
    /// no layout here.
    pub open spec fn pixel_stride(self) -> Option<int> {
        match self {
            FourCCVideo::UYVY => Some(2),
            FourCCVideo::BGRA | FourCCVideo::BGRX | FourCCVideo::RGBA | FourCCVideo::RGBX => Some(
                4,
            ),
            _ => None,
        }
    }

    /// The chroma subsampling of the format.
    pub open spec fn chroma(self) -> Subsampling {
        match self {
            FourCCVideo::UYVY => Subsampling { x_ref: 4, x_samples: 2, x2_samples: 2 },
            _ => Subsampling { x_ref: 4, x_samples: 4, x2_samples: 4 },
        }
    }

    /// The memory layout of a frame. A line holds `width` pixels; the buffer
    /// holds `height` lines, or half of that many bytes when the frame is a
    /// single field.
    pub open spec fn layout(self, resolution: Resolution, field_mode: NDIFieldedFrameMode) -> Result<
        BufferInfo,
        BufferInfoError,
    > {
        match self.pixel_stride() {
            None => Err(BufferInfoError::UnsupportedFourCC(self)),
            Some(stride) => if !resolution.valid() {
                Err(BufferInfoError::InvalidResolution)
            } else {
                let full = resolution.x * resolution.y * stride;
                Ok(
                    BufferInfo {
                        size: (if field_mode.single_field() {
                            full / 2
                        } else {
                            full
                        }) as usize,
                        line_stride: (resolution.x * stride) as usize,
                        resolution,
                        field_mode,
                        subsampling: self.chroma(),
                    },
                )
            },
        }
    }

    /// No two formats share a code, so a code stands for at most one.
    pub proof fn lemma_of_code(value: i32)
        ensures
            match Self::of_code(value) {
                Some(v) => v.code() == value && forall|w: FourCCVideo| w.code() == value ==> w == v,
                None => forall|w: FourCCVideo| w.code() != value,
            },
    {
        Self::lemma_codes();
    }

    /// Reading the code of a format gives the format back.
    pub proof fn lemma_round_trip(self)
        ensures
            Self::of_code(self.code()) == Some(self),
    {
        Self::lemma_of_code(self.code());
    }

    /// The codes, written out.
    pub proof fn lemma_codes()
        ensures
            FourCCVideo::UYVY.code() == 0x59565955,
            FourCCVideo::UYVA.code() == 0x41565955,
            FourCCVideo::P216.code() == 0x36313250,
            FourCCVideo::PA16.code() == 0x36314150,
            FourCCVideo::YV12.code() == 0x32315659,
            FourCCVideo::I420.code() == 0x30323449,
            FourCCVideo::NV12.code() == 0x3231564e,
            FourCCVideo::RGBA.code() == 0x41424752,
            FourCCVideo::RGBX.code() == 0x58424752,
            FourCCVideo::BGRA.code() == 0x41524742,
            FourCCVideo::BGRX.code() == 0x58524742,
    {
    }

    pub fn to_ffi(self) -> (code: i32)
        ensures
            code == self.code(),
    {
        proof {
            Self::lemma_codes();
        }
        match self {
            FourCCVideo::UYVY => 0x59565955,
            FourCCVideo::UYVA => 0x41565955,
            FourCCVideo::P216 => 0x36313250,
            FourCCVideo::PA16 => 0x36314150,
            FourCCVideo::YV12 => 0x32315659,
            FourCCVideo::I420 => 0x30323449,
            FourCCVideo::NV12 => 0x3231564e,
            FourCCVideo::RGBA => 0x41424752,
            FourCCVideo::RGBX => 0x58424752,
            FourCCVideo::BGRA => 0x41524742,
            FourCCVideo::BGRX => 0x58524742,
        }
    }

    /// The video format with the given code, if there is one.
    pub fn from_ffi(value: i32) -> (found: Option<FourCCVideo>)
        ensures
            found == Self::of_code(value),
    {
        proof {
            Self::lemma_of_code(value);
            Self::lemma_codes();
        }
        if value == 0x59565955 {
            Some(FourCCVideo::UYVY)
        } else if value == 0x41565955 {
            Some(FourCCVideo::UYVA)
        } else if value == 0x36313250 {
            Some(FourCCVideo::P216)
        } else if value == 0x36314150 {
            Some(FourCCVideo::PA16)
        } else if value == 0x32315659 {
            Some(FourCCVideo::YV12)
        } else if value == 0x30323449 {
            Some(FourCCVideo::I420)
        } else if value == 0x3231564e {
            Some(FourCCVideo::NV12)
        } else if value == 0x41424752 {
            Some(FourCCVideo::RGBA)
        } else if value == 0x58424752 {
            Some(FourCCVideo::RGBX)
        } else if value == 0x41524742 {
            Some(FourCCVideo::BGRA)
        } else if value == 0x58524742 {
            Some(FourCCVideo::BGRX)
        } else {
            None
        }
    }

    /// Bytes of one pixel, for the formats that have a layout.
    pub fn bytes_per_pixel(self) -> (stride: Option<usize>)
        ensures
            match stride {
                Some(n) => self.pixel_stride() == Some(n as int),
                None => self.pixel_stride() is None,
            },
    {
        match self {
            FourCCVideo::UYVY => Some(2),
            FourCCVideo::BGRA | FourCCVideo::BGRX | FourCCVideo::RGBA | FourCCVideo::RGBX => Some(
                4,
            ),
            _ => None,
        }
    }

    /// The chroma subsampling of the format.
    pub fn subsampling(self) -> (chroma: Subsampling)
        ensures
            chroma == self.chroma(),
            chroma.regular(),
    {
        match self {
            FourCCVideo::UYVY => Subsampling::new(4, 2, 2),
            _ => Subsampling::none(),
        }
    }

    /// Returns information about the memory layout of the frame data.
    pub fn buffer_info(self, resolution: Resolution, field_mode: NDIFieldedFrameMode) -> (info:
        Result<BufferInfo, BufferInfoError>)
        ensures
            info == self.layout(resolution, field_mode),
    {
        let pixel_stride = match self.bytes_per_pixel() {
            Some(stride) => stride,
            None => {
                return Err(BufferInfoError::UnsupportedFourCC(self));
            },
        };
        if !Resolution::is_safe(resolution.x, resolution.y) {
            return Err(BufferInfoError::InvalidResolution);
        }
        proof {
            lemma_safe_bounds(resolution.x as int, resolution.y as int);
            assert(resolution.x * resolution.y * pixel_stride <= resolution.x * resolution.y * 8)
                by (nonlinear_arith)
                requires
                    pixel_stride <= 8,
                    resolution.x * resolution.y >= 0,
            ;
        }
        let size: usize = resolution.pixels() * pixel_stride;
        Ok(
            BufferInfo {
                size: if field_mode.is_single_field() {
                    size / 2
                } else {
                    size
                },
                line_stride: resolution.x * pixel_stride,
                resolution,
                field_mode,
                subsampling: self.subsampling(),
            },
        )
    }
}

/// The layout of every packed format, for every safe resolution: a line
/// takes `width` pixels of 4 bytes in the four RGB formats and of 2 bytes in
/// `UYVY`; a progressive or interleaved frame takes `height` lines, and a
/// single field exactly half of that.
pub proof fn lemma_layout_sizes(
    format: FourCCVideo,
    resolution: Resolution,
    field_mode: NDIFieldedFrameMode,
)
    requires
        resolution.valid(),
        format.pixel_stride() is Some,
    ensures
        format.pixel_stride() == Some(
            if format is UYVY {
                2int
            } else {
                4int
            },
        ),
        format.layout(resolution, field_mode) matches Ok(info) && {
            let stride = format.pixel_stride().unwrap();
            let full = resolution.x * resolution.y * stride;
            &&& info.line_stride == resolution.x * stride
            &&& !field_mode.single_field() ==> info.size == full
            &&& field_mode.single_field() ==> info.size * 2 == full
            &&& info.resolution == resolution
            &&& info.field_mode == field_mode
            &&& info.subsampling == format.chroma()
            &&& info.subsampling.regular()
        },
        format.layout(resolution, field_mode) matches Ok(info) && format.layout(
            resolution,
            NDIFieldedFrameMode::Progressive,
        ) matches Ok(whole) && (if field_mode.single_field() {
            info.size * 2 == whole.size
        } else {
            info.size == whole.size
        }),
{
    let stride = format.pixel_stride().unwrap();
    let x = resolution.x as int;
    let y = resolution.y as int;
    lemma_safe_bounds(x, y);
    assert(x * stride <= x * y * stride && x * y * stride <= x * y * 8 && x * y * stride >= 0)
        by (nonlinear_arith)
        requires
            0 < stride <= 8,
            x > 0,
            y > 0,
    ;
    let half = x / 2;
    assert(x * y * stride == 2 * (half * y * stride)) by (nonlinear_arith)
        requires
            x == 2 * half,
    ;
}

/// The layout is a function of pixel format, resolution and field mode
/// alone: computed twice from the same three, it is twice the same.
pub proof fn lemma_layout_repeats(
    format: FourCCVideo,
    resolution: Resolution,
    field_mode: NDIFieldedFrameMode,
    first: Result<BufferInfo, BufferInfoError>,
    second: Result<BufferInfo, BufferInfoError>,
)
    requires
        first == format.layout(resolution, field_mode),
        second == format.layout(resolution, field_mode),
    ensures
        first == second,
{
}

/// A layout is refused for exactly three reasons: the format is planar, or
/// else the resolution is not safe.
pub proof fn lemma_layout_errors(
    format: FourCCVideo,
    resolution: Resolution,
    field_mode: NDIFieldedFrameMode,
)
    ensures
        format.layout(resolution, field_mode) is Ok <==> format.pixel_stride() is Some
            && resolution.valid(),
        format.pixel_stride() is None ==> format.layout(resolution, field_mode) == Err::<
            BufferInfo,
            BufferInfoError,
        >(BufferInfoError::UnsupportedFourCC(format)),
        format.pixel_stride() is Some && !resolution.valid() ==> format.layout(
            resolution,
            field_mode,
        ) == Err::<BufferInfo, BufferInfoError>(BufferInfoError::InvalidResolution),
{
}

/// Possible FourCC values for audio frames.
#[non_exhaustive]
#[allow(non_camel_case_types)]
#[derive(Debug, Clone, Copy, Hash, PartialEq, Eq, Structural)]
pub enum FourCCAudio {
    /// Planar 32-bit floating point samples.
    FLTP,
}

impl FourCCAudio {
    /// The four characters that name the format.
    pub open spec fn name(self) -> Seq<char> {
        seq!['F', 'L', 'T', 'p']
    }

    /// The SDK's code of the format: its name, packed.
    pub open spec fn code(self) -> i32 {
        let n = self.name();
        pack(n[0], n[1], n[2], n[3]) as i32
    }

    /// The format that a code stands for: the one whose code it is.
    pub open spec fn of_code(value: i32) -> Option<FourCCAudio> {
        if exists|v: FourCCAudio| v.code() == value {
            Some(choose|v: FourCCAudio| v.code() == value)
        } else {
            None
        }
    }

    /// A code stands for at most one format.
    pub proof fn lemma_of_code(value: i32)
        ensures
            match Self::of_code(value) {
                Some(v) => v.code() == value && forall|w: FourCCAudio| w.code() == value ==> w == v,
                None => forall|w: FourCCAudio| w.code() != value,
            },
    {
        Self::lemma_codes();
    }

    /// Reading the code of a format gives the format back.
    pub proof fn lemma_round_trip(self)
        ensures
            Self::of_code(self.code()) == Some(self),
    {
        Self::lemma_of_code(self.code());
    }

    /// The code, written out.
    pub proof fn lemma_codes()
        ensures
            FourCCAudio::FLTP.code() == 0x70544c46,
    {
    }

    pub fn to_ffi(self) -> (code: i32)
        ensures
            code == self.code(),
    {
        proof {
            Self::lemma_codes();
        }
        0x70544c46
    }

    /// The audio format with the given code, if there is one.
    pub fn from_ffi(value: i32) -> (found: Option<FourCCAudio>)
        ensures
            found == Self::of_code(value),
    {
        proof {
            Self::lemma_of_code(value);
            Self::lemma_codes();
        }
        if value == 0x70544c46 {
            Some(FourCCAudio::FLTP)
        } else {
            None
        }
    }
}

impl Default for FourCCAudio {
    fn default() -> (format: FourCCAudio)
        ensures
            format == FourCCAudio::FLTP,
    {
        FourCCAudio::FLTP
    }
}

/// Video and audio codes never meet: a code that names a video format names
/// no audio format, and the other way round. A frame's kind can therefore be
/// told from its code alone.
pub proof fn lemma_video_audio_disjoint(value: i32)
    ensures
        !(FourCCVideo::of_code(value) is Some && FourCCAudio::of_code(value) is Some),
{
    FourCCVideo::lemma_of_code(value);
    FourCCAudio::lemma_of_code(value);
    FourCCVideo::lemma_codes();
    FourCCAudio::lemma_codes();
}

/// The code of a pixel or sample format is the code of no colour format,
/// bandwidth mode or field mode. (Those three share codes among themselves:
/// 0 is a code of each.)
pub proof fn lemma_four_cc_is_no_mode(value: i32)
    requires
        FourCCVideo::of_code(value) is Some || FourCCAudio::of_code(value) is Some,
    ensures
        NDIPreferredColorFormat::of_code(value) is None,
        NDIBandwidthMode::of_code(value) is None,
        NDIFieldedFrameMode::of_code(value) is None,
{
    FourCCVideo::lemma_of_code(value);
    FourCCAudio::lemma_of_code(value);
    FourCCVideo::lemma_codes();
    FourCCAudio::lemma_codes();
    NDIPreferredColorFormat::lemma_of_code(value);
    NDIPreferredColorFormat::lemma_codes();
    NDIBandwidthMode::lemma_of_code(value);
    NDIBandwidthMode::lemma_codes();
    NDIFieldedFrameMode::lemma_of_code(value);
    NDIFieldedFrameMode::lemma_codes();
}

/// No code of a video format is read as an audio format.
pub proof fn lemma_video_is_no_audio(video: FourCCVideo)
    ensures
        FourCCAudio::of_code(video.code()) is None,
{
    video.lemma_round_trip();
    lemma_video_audio_disjoint(video.code());
}

/// No code of an audio format is read as a video format.
pub proof fn lemma_audio_is_no_video(audio: FourCCAudio)
    ensures
        FourCCVideo::of_code(audio.code()) is None,
{
    audio.lemma_round_trip();
    lemma_video_audio_disjoint(audio.code());
}

/// What `String::from_utf8_lossy` makes of a byte sequence: its text, with
/// each ill-formed part replaced by U+FFFD.
pub uninterp spec fn utf8_lossy(bytes: Seq<u8>) -> Seq<char>;

/// Calls `String::from_utf8_lossy` and takes the text as an owned string.
/// Well-formed UTF-8 is decoded as it stands; of any other input the
/// contract only names the result.
#[verifier::external_body]
fn string_from_utf8_lossy(bytes: &[u8]) -> (text: String)
    ensures
        text@ == utf8_lossy(bytes@),
        vstd::utf8::valid_utf8(bytes@) ==> text@ == vstd::utf8::decode_utf8(bytes@),
{
    String::from_utf8_lossy(bytes).into_owned()
}

/// Represents a generic FourCC code, known to this library or not.
#[derive(Clone, Copy, Hash, PartialEq, Eq, Debug, Structural)]
pub struct FourCC {
    code: i32,
}

impl View for FourCC {
    type V = i32;

    closed spec fn view(&self) -> i32 {
        self.code
    }
}

/// The four bytes of a code, lowest first.
pub open spec fn le_bytes(code: i32) -> Seq<u8> {
    let u = code as u32;
    seq![
        (u % 0x100) as u8,
        (u / 0x100 % 0x100) as u8,
        (u / 0x1_0000 % 0x100) as u8,
        (u / 0x100_0000) as u8,
    ]
}

impl FourCC {
    /// Creates a new FourCC from an i32 code.
    pub fn from_ffi(code: i32) -> (four_cc: FourCC)
        ensures
            four_cc@ == code,
    {
        FourCC { code }
    }

    /// Converts the FourCC to its i32 representation.
    pub fn to_ffi(self) -> (code: i32)
        ensures
            code == self@,
    {
        self.code
    }

    /// Attempts to convert the FourCC to a FourCCVideo.
    pub fn as_video(&self) -> (video: Option<FourCCVideo>)
        ensures
            video == FourCCVideo::of_code(self@),
    {
        FourCCVideo::from_ffi(self.code)
    }

    /// Attempts to convert the FourCC to a FourCCAudio.
    pub fn as_audio(&self) -> (audio: Option<FourCCAudio>)
        ensures
            audio == FourCCAudio::of_code(self@),
    {
        FourCCAudio::from_ffi(self.code)
    }

    /// The four bytes of the code, lowest first.
    pub fn to_le_bytes(&self) -> (bytes: [u8; 4])
        ensures
            bytes@ == le_bytes(self@),
    {
        let u: u32 = #[verifier::truncate]
        (self.code as u32);
        let bytes: [u8; 4] = [
            (u % 0x100) as u8,
            (u / 0x100 % 0x100) as u8,
            (u / 0x1_0000 % 0x100) as u8,
            (u / 0x100_0000) as u8,
        ];
        assert(bytes@ =~= le_bytes(self@));
        bytes
    }

    /// Formats the FourCC as a string: its four bytes read as text.
    pub fn to_string(&self) -> (text: String)
        ensures
            text@ == utf8_lossy(le_bytes(self@)),
            vstd::utf8::valid_utf8(le_bytes(self@)) ==> text@ == vstd::utf8::decode_utf8(
                le_bytes(self@),
            ),
    {
        let bytes = self.to_le_bytes();
        string_from_utf8_lossy(bytes.as_slice())
    }

    /// The text that a debugger shows for the FourCC: `FourCC(`, its four
    /// bytes read as text, and `)`.
    pub fn to_debug_string(&self) -> (text: String)
        ensures
            text@ == "FourCC("@ + utf8_lossy(le_bytes(self@)) + ")"@,
            vstd::utf8::valid_utf8(le_bytes(self@)) ==> text@ == "FourCC("@
                + vstd::utf8::decode_utf8(le_bytes(self@)) + ")"@,
    {
        let inner = self.to_string();
        FourCC::debug_text(inner.as_str())
    }

    /// Wraps the text of a code as a debugger shows it.
    pub fn debug_text(inner: &str) -> (text: String)
        ensures
            text@ == "FourCC("@ + inner@ + ")"@,
    {
        String::from_str("FourCC(").concat(inner).concat(")")
    }
}

/// An ASCII character is encoded as the one byte of its value.
proof fn lemma_encode_ascii_head(chars: Seq<char>)
    requires
        chars.len() > 0,
        0 <= chars[0] as int <= 0x7f,
    ensures
        vstd::utf8::encode_utf8(chars) == seq![chars[0] as u8] + vstd::utf8::encode_utf8(
            chars.drop_first(),
        ),
{
    let s = chars[0] as u32;
    assert(s & 0x7f == s) by (bit_vector)
        requires
            s <= 0x7f,
    ;
    assert(vstd::utf8::encode_scalar(s) =~= seq![chars[0] as u8]);
}

/// The bytes of the code of four ASCII characters are the characters.
proof fn lemma_packed_ascii_bytes(a: char, b: char, c: char, d: char)
    requires
        0 <= a as int <= 0x7f,
        0 <= b as int <= 0x7f,
        0 <= c as int <= 0x7f,
        0 <= d as int <= 0x7f,
    ensures
        le_bytes(pack(a, b, c, d) as i32) == seq![a as u8, b as u8, c as u8, d as u8],
{
    assert(le_bytes(pack(a, b, c, d) as i32) =~= seq![a as u8, b as u8, c as u8, d as u8]);
}

/// The code of four ASCII characters, read as text, is those characters.
pub proof fn lemma_packed_ascii_is_text(a: char, b: char, c: char, d: char)
    requires
        0 <= a as int <= 0x7f,
        0 <= b as int <= 0x7f,
        0 <= c as int <= 0x7f,
        0 <= d as int <= 0x7f,
    ensures
        le_bytes(pack(a, b, c, d) as i32) == seq![a as u8, b as u8, c as u8, d as u8],
        vstd::utf8::valid_utf8(le_bytes(pack(a, b, c, d) as i32)),
        vstd::utf8::decode_utf8(le_bytes(pack(a, b, c, d) as i32)) == seq![a, b, c, d],
{
    lemma_packed_ascii_bytes(a, b, c, d);
    let chars = seq![a, b, c, d];
    let rest1 = chars.drop_first();
    let rest2 = rest1.drop_first();
    let rest3 = rest2.drop_first();
    let rest4 = rest3.drop_first();
    assert(rest1 =~= seq![b, c, d]);
    assert(rest2 =~= seq![c, d]);
    assert(rest3 =~= seq![d]);
    assert(rest4 =~= Seq::<char>::empty());
    assert(vstd::utf8::encode_utf8(rest4) =~= Seq::<u8>::empty());
    lemma_encode_ascii_head(rest3);
    lemma_encode_ascii_head(rest2);
    lemma_encode_ascii_head(rest1);
    lemma_encode_ascii_head(chars);
    assert(vstd::utf8::encode_utf8(chars) =~= seq![a as u8, b as u8, c as u8, d as u8]);
    vstd::utf8::encode_utf8_valid_utf8(chars);
    vstd::utf8::encode_utf8_decode_utf8(chars);
}

/// The code of every video format, read as text, is the format's name. So
/// that is what [`FourCC::to_string`] returns for it.
pub proof fn lemma_video_code_is_name(video: FourCCVideo)
    ensures
        vstd::utf8::valid_utf8(le_bytes(video.code())),
        vstd::utf8::decode_utf8(le_bytes(video.code())) == video.name(),
{
    let n = video.name();
    lemma_packed_ascii_is_text(n[0], n[1], n[2], n[3]);
    assert(n =~= seq![n[0], n[1], n[2], n[3]]);
}

/// The code of every audio format, read as text, is the format's name.
pub proof fn lemma_audio_code_is_name(audio: FourCCAudio)
    ensures
        vstd::utf8::valid_utf8(le_bytes(audio.code())),
        vstd::utf8::decode_utf8(le_bytes(audio.code())) == audio.name(),
{
    let n = audio.name();
    lemma_packed_ascii_is_text(n[0], n[1], n[2], n[3]);
    assert(n =~= seq![n[0], n[1], n[2], n[3]]);
}

impl From<FourCCVideo> for FourCC {
    fn from(value: FourCCVideo) -> (four_cc: FourCC) {
        FourCC { code: value.to_ffi() }
    }
}

impl vstd::std_specs::convert::FromSpecImpl<FourCCVideo> for FourCC {
    open spec fn obeys_from_spec() -> bool {
        true
    }

    closed spec fn from_spec(value: FourCCVideo) -> FourCC {
        FourCC { code: value.code() }
    }
}

impl From<FourCCAudio> for FourCC {
    fn from(value: FourCCAudio) -> (four_cc: FourCC) {
        FourCC { code: value.to_ffi() }
    }
}

impl vstd::std_specs::convert::FromSpecImpl<FourCCAudio> for FourCC {
    open spec fn obeys_from_spec() -> bool {
        true
    }

    closed spec fn from_spec(value: FourCCAudio) -> FourCC {
        FourCC { code: value.code() }
    }
}

impl From<i32> for FourCC {
    fn from(code: i32) -> (four_cc: FourCC) {
        FourCC { code }
    }
}

impl vstd::std_specs::convert::FromSpecImpl<i32> for FourCC {
    open spec fn obeys_from_spec() -> bool {
        true
    }

    closed spec fn from_spec(code: i32) -> FourCC {
        FourCC { code }
    }
}

impl From<FourCC> for i32 {
    fn from(four_cc: FourCC) -> (code: i32) {
        four_cc.code
    }
}

impl vstd::std_specs::convert::FromSpecImpl<FourCC> for i32 {
    open spec fn obeys_from_spec() -> bool {
        true
    }

    open spec fn from_spec(four_cc: FourCC) -> i32 {
        four_cc@
    }
}

/// A FourCC made from a bare code holds that code.
pub proof fn lemma_from_holds_code(code: i32)
    ensures
        <FourCC as vstd::std_specs::convert::FromSpec<i32>>::from_spec(code)@ == code,
{
}

/// A FourCC made from a video format holds the format's code.
pub proof fn lemma_from_video_holds_code(video: FourCCVideo)
    ensures
        <FourCC as vstd::std_specs::convert::FromSpec<FourCCVideo>>::from_spec(video)@
            == video.code(),
{
}

/// A FourCC made from an audio format holds the format's code.
pub proof fn lemma_from_audio_holds_code(audio: FourCCAudio)
    ensures
        <FourCC as vstd::std_specs::convert::FromSpec<FourCCAudio>>::from_spec(audio)@
            == audio.code(),
{
}

impl TryFrom<FourCC> for FourCCVideo {
    type Error = ();

    fn try_from(value: FourCC) -> (video: Result<FourCCVideo, ()>) {
        match FourCCVideo::from_ffi(value.code) {
            Some(v) => Ok(v),
            None => Err(()),
        }
    }
}

impl vstd::std_specs::convert::TryFromSpecImpl<FourCC> for FourCCVideo {
    open spec fn obeys_try_from_spec() -> bool {
        true
    }

    open spec fn try_from_spec(value: FourCC) -> Result<FourCCVideo, ()> {
        match FourCCVideo::of_code(value@) {
            Some(v) => Ok(v),
            None => Err(()),
        }
    }
}

impl TryFrom<FourCC> for FourCCAudio {
    type Error = ();

    fn try_from(value: FourCC) -> (audio: Result<FourCCAudio, ()>) {
        match FourCCAudio::from_ffi(value.code) {
            Some(v) => Ok(v),
            None => Err(()),
        }
    }
}

impl vstd::std_specs::convert::TryFromSpecImpl<FourCC> for FourCCAudio {
    open spec fn obeys_try_from_spec() -> bool {
        true
    }

    open spec fn try_from_spec(value: FourCC) -> Result<FourCCAudio, ()> {
        match FourCCAudio::of_code(value@) {
            Some(v) => Ok(v),
            None => Err(()),
        }
    }
}

} // verus!
