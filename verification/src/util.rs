//! Conversions that every component needs at the boundary to the SDK:
//! timeouts in milliseconds and text as C strings.

use vstd::prelude::*;
use vstd::slice::slice_subrange;
use vstd::string::{StringExecFns, StringSliceAdditionalSpecFns};
use vstd::utf8::valid_utf8;
use std::sync::Arc;
use std::time::Duration;

verus! {

/// The whole milliseconds that a duration holds, as `Duration::as_millis`
/// counts them.
pub uninterp spec fn duration_millis(duration: Duration) -> u128;

/// `Duration::as_millis` returns the total number of whole milliseconds
/// contained by the duration. The contract gives that number its name.
pub assume_specification[ Duration::as_millis ](duration: &Duration) -> (millis: u128)
    ensures
        millis == duration_millis(*duration),
;

/// The timeout that the SDK is given for a duration: its whole milliseconds,
/// or the largest value of 32 bits if there are more.
pub open spec fn timeout_millis(duration: Duration) -> u32 {
    if duration_millis(duration) > u32::MAX {
        u32::MAX
    } else {
        duration_millis(duration) as u32
    }
}

/// Converts a duration to the millisecond count that the SDK takes. A
/// duration too long for 32 bits is clamped, never wrapped.
pub fn duration_to_ms(dur: Duration) -> (millis: u32)
    ensures
        millis == timeout_millis(dur),
{
    saturate_millis(dur.as_millis())
}

/// Clamps a count of milliseconds to 32 bits.
pub fn saturate_millis(millis: u128) -> (clamped: u32)
    ensures
        clamped == if millis > u32::MAX {
            u32::MAX
        } else {
            millis as u32
        },
{
    if millis > 0xffff_ffff {
        u32::MAX
    } else {
        millis as u32
    }
}

/// The character of a decimal digit.
pub open spec fn digit(d: nat) -> char {
    if d == 0 {
        '0'
    } else if d == 1 {
        '1'
    } else if d == 2 {
        '2'
    } else if d == 3 {
        '3'
    } else if d == 4 {
        '4'
    } else if d == 5 {
        '5'
    } else if d == 6 {
        '6'
    } else if d == 7 {
        '7'
    } else if d == 8 {
        '8'
    } else {
        '9'
    }
}

/// A number in decimal notation, without leading zeros.
pub open spec fn decimal_digits(n: nat) -> Seq<char>
    decreases n,
{
    if n < 10 {
        seq![digit(n)]
    } else {
        decimal_digits(n / 10).push(digit(n % 10))
    }
}

/// The text of one decimal digit.
fn digit_text(d: usize) -> (text: &'static str)
    requires
        d < 10,
    ensures
        text@ == seq![digit(d as nat)],
{
    proof {
        reveal_strlit("0");
        reveal_strlit("1");
        reveal_strlit("2");
        reveal_strlit("3");
        reveal_strlit("4");
        reveal_strlit("5");
        reveal_strlit("6");
        reveal_strlit("7");
        reveal_strlit("8");
        reveal_strlit("9");
    }
    let text = if d == 0 {
        "0"
    } else if d == 1 {
        "1"
    } else if d == 2 {
        "2"
    } else if d == 3 {
        "3"
    } else if d == 4 {
        "4"
    } else if d == 5 {
        "5"
    } else if d == 6 {
        "6"
    } else if d == 7 {
        "7"
    } else if d == 8 {
        "8"
    } else {
        "9"
    };
    assert(text@ =~= seq![digit(d as nat)]);
    text
}

/// Writes a number in decimal notation.
pub fn decimal(n: usize) -> (text: String)
    ensures
        text@ == decimal_digits(n as nat),
    decreases n,
{
    if n < 10 {
        String::from_str(digit_text(n))
    } else {
        let text = decimal(n / 10).concat(digit_text(n % 10));
        assert(text@ =~= decimal_digits(n as nat));
        text
    }
}

/// `core::str::from_utf8` reads bytes as text if they are well-formed
/// UTF-8, and fails otherwise. The text is made of the very bytes.
#[verifier::external_body]
pub(crate) fn str_from_utf8(bytes: &[u8]) -> (text: Option<&str>)
    ensures
        text is Some <==> valid_utf8(bytes@),
        text matches Some(s) ==> s.spec_bytes() == bytes@,
{
    core::str::from_utf8(bytes).ok()
}

/// `Arc::into_inner`: returns the inner value if this was the only strong
/// reference, and `None` otherwise. Which of the two happens depends on the
/// other holders, so the contract says only what the value is when it comes.
#[verifier::external_body]
pub(crate) fn arc_into_inner<T>(shared: Arc<T>) -> (inner: Option<T>)
    ensures
        inner matches Some(value) ==> value == *shared,
{
    Arc::into_inner(shared)
}

/// Index of the first zero byte, or the length if there is none.
pub open spec fn first_nul(bytes: Seq<u8>) -> int
    decreases bytes.len(),
{
    if bytes.len() == 0 || bytes[0] == 0 {
        0
    } else {
        1 + first_nul(bytes.drop_first())
    }
}

/// No byte is zero.
pub open spec fn nul_free(bytes: Seq<u8>) -> bool {
    forall|i: int| 0 <= i < bytes.len() ==> bytes[i] != 0
}

/// `first_nul` is the least index of a zero byte; without a zero byte it is
/// the length.
pub proof fn lemma_first_nul(bytes: Seq<u8>)
    ensures
        0 <= first_nul(bytes) <= bytes.len(),
        forall|i: int| 0 <= i < first_nul(bytes) ==> bytes[i] != 0,
        first_nul(bytes) < bytes.len() ==> bytes[first_nul(bytes)] == 0,
        nul_free(bytes) <==> first_nul(bytes) == bytes.len(),
    decreases bytes.len(),
{
    if bytes.len() == 0 || bytes[0] == 0 {
    } else {
        let rest = bytes.drop_first();
        lemma_first_nul(rest);
        assert forall|i: int| 0 <= i < first_nul(bytes) implies bytes[i] != 0 by {
            if i > 0 {
                assert(bytes[i] == rest[i - 1]);
            }
        }
        if nul_free(bytes) {
            assert forall|i: int| 0 <= i < rest.len() implies rest[i] != 0 by {
                assert(rest[i] == bytes[i + 1]);
            }
        }
        if first_nul(bytes) < bytes.len() {
            assert(bytes[first_nul(bytes)] == rest[first_nul(rest)]);
        }
    }
}

/// The input of a C string held a zero byte.
#[derive(Debug, Clone, Copy, PartialEq, Eq, Structural)]
pub struct NulError {
    position: usize,
}

impl NulError {
    /// Index of the first zero byte of the rejected input.
    pub closed spec fn position(&self) -> usize {
        self.position
    }

    /// Returns the position of the zero byte that caused the error.
    pub fn nul_position(&self) -> (position: usize)
        ensures
            position == self.position(),
    {
        self.position
    }
}

/// Text in the form the SDK takes it: bytes without a zero among them,
/// closed by a single zero byte.
#[derive(Debug, PartialEq, Eq, Hash)]
pub struct CString {
    bytes: Vec<u8>,
}

impl View for CString {
    type V = Seq<u8>;

    /// The text, without the closing zero byte.
    closed spec fn view(&self) -> Seq<u8> {
        self.bytes@.drop_last()
    }
}

impl CString {
    #[verifier::type_invariant]
    closed spec fn terminated(&self) -> bool {
        &&& self.bytes@.len() >= 1
        &&& self.bytes@.last() == 0
        &&& nul_free(self.bytes@.drop_last())
    }

    /// Makes a C string of a text, unless the text holds a zero byte.
    pub fn new(text: &str) -> (made: Result<CString, NulError>)
        ensures
            match made {
                Ok(c) => c@ == text.spec_bytes() && nul_free(text.spec_bytes()),
                Err(e) => e.position() == first_nul(text.spec_bytes()) && !nul_free(
                    text.spec_bytes(),
                ),
            },
    {
        CString::from_bytes(text.as_bytes())
    }

    /// Makes a C string of bytes, unless a zero byte is among them.
    pub fn from_bytes(text: &[u8]) -> (made: Result<CString, NulError>)
        ensures
            match made {
                Ok(c) => c@ == text@ && nul_free(text@),
                Err(e) => e.position() == first_nul(text@) && !nul_free(text@),
            },
    {
        proof {
            lemma_first_nul(text@);
        }
        let mut bytes: Vec<u8> = Vec::new();
        let mut i: usize = 0;
        while i < text.len()
            invariant
                i <= text.len(),
                bytes@ == text@.subrange(0, i as int),
                nul_free(bytes@),
                i <= first_nul(text@),
                0 <= first_nul(text@) <= text@.len(),
                first_nul(text@) < text@.len() ==> text@[first_nul(text@)] == 0,
                forall|k: int| 0 <= k < first_nul(text@) ==> text@[k] != 0,
                nul_free(text@) <==> first_nul(text@) == text@.len(),
            decreases text.len() - i,
        {
            let b = text[i];
            if b == 0 {
                return Err(NulError { position: i });
            }
            bytes.push(b);
            assert(bytes@ =~= text@.subrange(0, i + 1));
            assert(i as int != first_nul(text@));
            i += 1;
        }
        assert(bytes@ =~= text@);
        bytes.push(0);
        assert(bytes@.drop_last() =~= text@);
        Ok(CString { bytes })
    }

    /// The text, without the closing zero byte.
    pub fn as_bytes(&self) -> (bytes: &[u8])
        ensures
            bytes@ == self@,
            nul_free(bytes@),
    {
        proof {
            use_type_invariant(self);
        }
        let all = self.bytes.as_slice();
        let text = slice_subrange(all, 0, all.len() - 1);
        assert(text@ =~= self@);
        text
    }

    /// The text with its closing zero byte, as the SDK reads it.
    pub fn as_bytes_with_nul(&self) -> (bytes: &[u8])
        ensures
            bytes@ == self@.push(0),
            nul_free(self@),
    {
        proof {
            use_type_invariant(self);
            assert(self.bytes@ =~= self@.push(0));
        }
        self.bytes.as_slice()
    }

    /// Length of the text in bytes, the closing zero byte not counted.
    pub fn count_bytes(&self) -> (n: usize)
        ensures
            n == self@.len(),
    {
        proof {
            use_type_invariant(self);
        }
        self.bytes.len() - 1
    }

    /// A copy of the string.
    pub fn duplicate(&self) -> (copy: CString)
        ensures
            copy@ == self@,
    {
        proof {
            use_type_invariant(self);
        }
        let bytes = self.bytes.clone();
        assert(bytes@ =~= self.bytes@);
        CString { bytes }
    }
}

impl Clone for CString {
    fn clone(&self) -> (copy: CString)
        ensures
            copy@ == self@,
    {
        self.duplicate()
    }
}

/// The longest name, in bytes, that the SDK takes for a source.
pub const MAX_SOURCE_NAME_BYTES: usize = 253;

/// Why a text is no name of a source.
#[non_exhaustive]
#[derive(Debug, Clone, Copy, PartialEq, Eq, Structural)]
pub enum SourceNameError {
    /// The input name contained Nul characters
    NulError(NulError),
    /// The name is longer than the SDK allows. It is not cut short.
    TooLong,
}

/// Makes the name of a source, a sender or a router of a text. The SDK limits
/// such a name to 253 bytes; a longer one is refused, and so is one that
/// holds a zero byte.
pub fn validate_source_name(name: &str) -> (made: Result<CString, SourceNameError>)
    ensures
        match made {
            Ok(c) => {
                &&& c@ == name.spec_bytes()
                &&& nul_free(name.spec_bytes())
                &&& name.spec_bytes().len() <= MAX_SOURCE_NAME_BYTES
            },
            Err(SourceNameError::NulError(e)) => {
                &&& !nul_free(name.spec_bytes())
                &&& e.position() == first_nul(name.spec_bytes())
            },
            Err(SourceNameError::TooLong) => {
                &&& nul_free(name.spec_bytes())
                &&& name.spec_bytes().len() > MAX_SOURCE_NAME_BYTES
            },
        },
{
    match CString::new(name) {
        Err(e) => Err(SourceNameError::NulError(e)),
        Ok(c) => {
            if c.count_bytes() > MAX_SOURCE_NAME_BYTES {
                Err(SourceNameError::TooLong)
            } else {
                Ok(c)
            }
        },
    }
}

} // verus!
