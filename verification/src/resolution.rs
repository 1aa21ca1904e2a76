//! Video resolutions that are safe to hand to the SDK.

use vstd::prelude::*;
use vstd::string::StringExecFns;
use crate::util::{decimal, decimal_digits};

verus! {

/// Largest value a dimension may come near: the SDK stores sizes as signed
/// 32-bit integers.
pub const MAX_SAFE_VALUE: usize = 2147483647;

/// Bytes of the widest pixel the SDK knows: four components of 16 bits.
pub const MAX_PIXEL_BYTES: usize = 8;

/// A safe resolution has fewer pixels than this.
pub const MAX_SAFE_PIXELS: usize = MAX_SAFE_VALUE / MAX_PIXEL_BYTES;

/// Width and height of a video frame in pixels.
///
/// [`Resolution::new`] and [`Resolution::try_new`] build safe resolutions
/// only. The fields are public all the same: a resolution that is written
/// down field by field is checked by nothing, and [`Resolution::valid`] says
/// whether it is safe. What computes with a resolution refuses one that is
/// not.
#[derive(Clone, Copy, PartialEq, Eq, Hash, Debug, Structural)]
pub struct Resolution {
    pub x: usize,
    pub y: usize,
}

impl Resolution {
    /// A resolution is safe when both dimensions are positive, the width is
    /// even (the SDK works on 4:2:2 pixel pairs), and a buffer of the widest
    /// pixel format stays below the largest signed 32-bit size.
    pub open spec fn safe(x: int, y: int) -> bool {
        &&& x > 0
        &&& y > 0
        &&& x % 2 == 0
        &&& x * y < MAX_SAFE_PIXELS
    }

    /// The resolution holds a safe pair of dimensions.
    pub open spec fn valid(&self) -> bool {
        Self::safe(self.x as int, self.y as int)
    }

    /// Checks if the resolution is safe to handle.
    pub fn is_safe(x: usize, y: usize) -> (ok: bool)
        ensures
            ok == Self::safe(x as int, y as int),
    {
        if x == 0 || y == 0 {
            return false;
        }
        if x % 2 != 0 {
            return false;
        }
        if x >= MAX_SAFE_VALUE || y >= MAX_SAFE_VALUE {
            proof {
                lemma_factor_below_product(x as int, y as int);
            }
            return false;
        }
        match x.checked_mul(y) {
            Some(area) => area < MAX_SAFE_PIXELS,
            None => false,
        }
    }

    /// Builds a resolution from dimensions that are known to be safe.
    pub fn new(x: usize, y: usize) -> (res: Resolution)
        requires
            Self::safe(x as int, y as int),
        ensures
            res == (Resolution { x, y }),
            res.valid(),
    {
        Resolution { x, y }
    }

    /// Builds a resolution if the dimensions are safe.
    pub fn try_new(x: usize, y: usize) -> (res: Option<Resolution>)
        ensures
            res == if Self::safe(x as int, y as int) {
                Some(Resolution { x, y })
            } else {
                None
            },
    {
        if Resolution::is_safe(x, y) {
            Some(Resolution { x, y })
        } else {
            None
        }
    }

    /// Same as [`Resolution::new`]; kept for callers that build constants.
    pub fn new_const(x: usize, y: usize) -> (res: Resolution)
        requires
            Self::safe(x as int, y as int),
        ensures
            res == (Resolution { x, y }),
            res.valid(),
    {
        Resolution { x, y }
    }

    /// Whether a pair of signed dimensions, as the SDK stores them, is a safe
    /// resolution.
    pub open spec fn safe_i32(x: i32, y: i32) -> bool {
        Self::safe(x as int, y as int)
    }

    /// Tests what [`Resolution::from_i32`] asks of its arguments.
    pub fn is_safe_i32(x: i32, y: i32) -> (ok: bool)
        ensures
            ok == Self::safe_i32(x, y),
    {
        x > 0 && y > 0 && Resolution::is_safe(x as usize, y as usize)
    }

    /// Builds a resolution from the signed dimensions that the SDK stores.
    pub fn from_i32(x: i32, y: i32) -> (res: Resolution)
        requires
            Self::safe_i32(x, y),
        ensures
            res.x == x,
            res.y == y,
            res.valid(),
    {
        Resolution { x: x as usize, y: y as usize }
    }

    /// Builds a resolution from signed dimensions if they are safe.
    pub fn try_from_i32(x: i32, y: i32) -> (res: Option<Resolution>)
        ensures
            res == if Self::safe_i32(x, y) {
                Some(Resolution { x: x as usize, y: y as usize })
            } else {
                None
            },
    {
        if Resolution::is_safe_i32(x, y) {
            Some(Resolution { x: x as usize, y: y as usize })
        } else {
            None
        }
    }

    /// The dimensions as the SDK stores them. A valid resolution fits; any
    /// other is cut to its low 32 bits.
    pub fn to_i32(&self) -> (pair: (i32, i32))
        ensures
            pair.0 == self.x as i32,
            pair.1 == self.y as i32,
            self.x <= i32::MAX ==> pair.0 == self.x,
            self.y <= i32::MAX ==> pair.1 == self.y,
    {
        (
            #[verifier::truncate]
            (self.x as i32),
            #[verifier::truncate]
            (self.y as i32),
        )
    }

    /// The resolution as text: width, `x`, height.
    pub open spec fn text(&self) -> Seq<char> {
        decimal_digits(self.x as nat) + seq!['x'] + decimal_digits(self.y as nat)
    }

    /// Writes the resolution as `1920x1080`.
    pub fn to_string(&self) -> (text: String)
        ensures
            text@ == self.text(),
    {
        proof {
            reveal_strlit("x");
        }
        let text = decimal(self.x).concat("x");
        let height = decimal(self.y);
        let text = text.concat(height.as_str());
        assert(text@ =~= self.text());
        text
    }

    /// Writes the resolution as a debugger shows it: `Resolution(1920x1080)`.
    pub fn to_debug_string(&self) -> (text: String)
        ensures
            text@ == "Resolution("@ + self.text() + ")"@,
    {
        let inner = self.to_string();
        String::from_str("Resolution(").concat(inner.as_str()).concat(")")
    }

    /// Number of pixels of one frame.
    pub fn pixels(&self) -> (n: usize)
        requires
            self.x * self.y <= usize::MAX,
        ensures
            n == self.x * self.y,
    {
        self.x * self.y
    }
}

/// In a product of two positive numbers neither factor is above the product.
proof fn lemma_factor_below_product(x: int, y: int)
    requires
        x > 0,
        y > 0,
    ensures
        x <= x * y,
        y <= x * y,
{
    assert(x <= x * y && y <= x * y) by (nonlinear_arith)
        requires
            x > 0,
            y > 0,
    ;
}

/// A valid resolution fits the SDK's signed 32-bit fields, and so does the
/// byte size of its buffer in every pixel format of at most eight bytes.
pub proof fn lemma_safe_bounds(x: int, y: int)
    requires
        Resolution::safe(x, y),
    ensures
        x < MAX_SAFE_PIXELS,
        y < MAX_SAFE_PIXELS,
        x * y * 8 < 0x8000_0000,
{
    lemma_factor_below_product(x, y);
}

/// Every pair of dimensions with positive height, positive even width and a
/// buffer of eight bytes per pixel below 2^31 bytes is a safe resolution, so
/// [`Resolution::try_new`] accepts it.
pub proof fn lemma_bounded_even_is_safe(width: usize, height: usize)
    requires
        width > 0,
        height > 0,
        width % 2 == 0,
        width * height * 8 < 0x8000_0000,
    ensures
        Resolution::safe(width as int, height as int),
        (Resolution { x: width, y: height }).valid(),
{
    let w = width as int;
    let h = height as int;
    let k = w / 2;
    assert(w * h == 2 * (k * h)) by (nonlinear_arith)
        requires
            w == 2 * k,
    ;
}

} // verus!
