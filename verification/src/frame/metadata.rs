//! Metadata frames: a text, most often a snippet of XML.

use vstd::prelude::*;
use crate::frame::{NDIFrameExt, RawFrame};
use crate::frame::drop_guard::{BufferRelease, FrameDataDropGuard};
use crate::frame::generic::NDIFrame;
use crate::timecode::NDI_TIME_DEFAULT;
use crate::util::CString;

verus! {

/// The descriptor of a metadata frame, field by field as the SDK's
/// structure has them.
#[derive(Debug, Clone, PartialEq, Eq)]
pub struct NDIRawMetadataFrame {
    /// Length of the text in bytes, the closing zero byte counted, or 0
    /// where the length is left to be found.
    pub length: i32,
    /// When the frame is meant, in 100 ns intervals.
    pub timecode: i64,
    /// The text that the SDK wrote. A text of the caller's is not here: it
    /// is the frame's memory.
    pub p_data: Option<CString>,
}

impl NDIRawMetadataFrame {
    /// The descriptor of a frame that is to be filled.
    pub open spec fn blank() -> NDIRawMetadataFrame {
        NDIRawMetadataFrame { length: 0, timecode: NDI_TIME_DEFAULT, p_data: None }
    }

    /// The length that a descriptor states for a text: its bytes and the
    /// closing zero byte.
    pub open spec fn length_of(text: Seq<u8>) -> i32 {
        (text.len() + 1) as i32
    }

    /// The stated length, where there is one, is that of the SDK's text.
    pub open spec fn length_fits(&self) -> bool {
        self.p_data matches Some(text) ==> self.length > 0 ==> self.length == text@.len() + 1
    }

    /// Makes the descriptor of a frame that is to be filled.
    pub fn new() -> (raw: NDIRawMetadataFrame)
        ensures
            raw == Self::blank(),
            raw.unwritten(),
    {
        NDIRawMetadataFrame { length: 0, timecode: NDI_TIME_DEFAULT, p_data: None }
    }
}

impl RawFrame for NDIRawMetadataFrame {
    open spec fn unwritten(&self) -> bool {
        self.p_data is None
    }

    /// A metadata frame is without memory, or holds a text of the caller's,
    /// whose length the descriptor then states, or a text of the SDK's, which
    /// a receiver or a sender wrote.
    open spec fn fits(&self, memory: &FrameDataDropGuard) -> bool {
        match *memory {
            FrameDataDropGuard::NullPtr => self.unwritten(),
            FrameDataDropGuard::Receiver(_) => true,
            FrameDataDropGuard::Sender(_) => true,
            FrameDataDropGuard::CString(text) => {
                &&& self.p_data is None
                &&& self.length == Self::length_of(text@)
            },
            FrameDataDropGuard::Box(_) => false,
        }
    }

    fn is_unwritten(&self) -> (b: bool) {
        self.p_data.is_none()
    }
}

/// Represents a metadata frame.
pub type MetadataFrame = NDIFrame<NDIRawMetadataFrame>;

impl NDIFrame<NDIRawMetadataFrame> {
    /// The text of the frame: the caller's, or else the one that the SDK
    /// wrote.
    pub open spec fn text(&self) -> Option<CString> {
        match self.memory() {
            FrameDataDropGuard::CString(text) => Some(text),
            _ => self.descriptor().p_data,
        }
    }

    /// What may be read of a frame that the SDK wrote: where the
    /// descriptor states a length, the text has it. Of any other frame this
    /// holds by itself.
    pub open spec fn sound(&self) -> bool {
        self.memory().from_sdk() ==> self.descriptor().length_fits()
    }

    /// Constructs a new metadata frame, without text.
    pub fn new() -> (frame: MetadataFrame)
        ensures
            frame.descriptor() == NDIRawMetadataFrame::blank(),
            frame.memory() is NullPtr,
            frame.memory().writable(),
            !frame.memory().readable(),
            frame.text() is None,
            frame.wf(),
    {
        NDIFrame { raw: NDIRawMetadataFrame::new(), alloc: FrameDataDropGuard::NullPtr }
    }

    /// Constructs a metadata frame that holds the given text, ready to be
    /// sent.
    pub fn from_string(cstr: CString) -> (frame: MetadataFrame)
        ensures
            frame.memory() == FrameDataDropGuard::CString(cstr),
            frame.descriptor() == (NDIRawMetadataFrame {
                length: NDIRawMetadataFrame::length_of(cstr@),
                timecode: NDI_TIME_DEFAULT,
                p_data: None,
            }),
            frame.text() == Some(cstr),
            frame.memory().mutable(),
            frame.memory().readable(),
            !frame.memory().writable(),
            frame.wf(),
    {
        let with_nul = cstr.as_bytes_with_nul().len();
        let raw = NDIRawMetadataFrame {
            length: #[verifier::truncate]
            (with_nul as i32),
            timecode: NDI_TIME_DEFAULT,
            p_data: None,
        };
        NDIFrame { raw, alloc: FrameDataDropGuard::CString(cstr) }
    }

    /// Tests what [`MetadataFrame::to_str`] asks of a frame.
    pub fn is_sound(&self) -> (b: bool)
        ensures
            b == self.sound(),
    {
        if !self.alloc.is_from_sdk() {
            return true;
        }
        match &self.raw.p_data {
            Some(text) => {
                if self.raw.length > 0 {
                    text.count_bytes() < 0x7fff_ffff && text.count_bytes() + 1
                        == self.raw.length as usize
                } else {
                    true
                }
            },
            None => true,
        }
    }

    /// The text of the frame, if it has one.
    pub fn to_str(&self) -> (text: Option<&CString>)
        requires
            self.sound(),
        ensures
            match text {
                Some(t) => self.text() == Some(*t),
                None => self.text() is None,
            },
    {
        if let FrameDataDropGuard::CString(cstr) = &self.alloc {
            return Some(cstr);
        }
        self.raw.p_data.as_ref()
    }

    /// Lets go of the text. A text of the caller's is gone with the call; a
    /// text of the SDK's is handed out to be freed through the receiver or
    /// the sender that wrote it. The descriptor keeps its time.
    pub fn dealloc(&mut self) -> (release: BufferRelease)
        ensures
            final(self).memory() is NullPtr,
            release == old(self).memory().release_of(),
            final(self).descriptor() == (NDIRawMetadataFrame {
                length: 0,
                timecode: old(self).descriptor().timecode,
                p_data: None,
            }),
    {
        let mut held = MetadataFrame::new();
        core::mem::swap(self, &mut held);
        let NDIFrame { raw, alloc } = held;
        let mut alloc = alloc;
        let release = alloc.drop_buffer();
        *self = NDIFrame {
            raw: NDIRawMetadataFrame { length: 0, timecode: raw.timecode, p_data: None },
            alloc,
        };
        release
    }
}

impl NDIFrameExt for NDIFrame<NDIRawMetadataFrame> {
    open spec fn holds_data(&self) -> bool {
        self.text() is Some && self.memory().readable()
    }

    open spec fn release_due(&self) -> BufferRelease {
        self.memory().release_of()
    }

    fn data_valid(&self) -> (b: bool) {
        match &self.alloc {
            FrameDataDropGuard::NullPtr => false,
            FrameDataDropGuard::CString(_) => true,
            _ => self.raw.p_data.is_some(),
        }
    }

    fn clear(&mut self) -> (release: BufferRelease) {
        self.dealloc()
    }
}

impl From<CString> for NDIFrame<NDIRawMetadataFrame> {
    fn from(cstr: CString) -> (frame: MetadataFrame) {
        Self::from_string(cstr)
    }
}

impl vstd::std_specs::convert::FromSpecImpl<CString> for NDIFrame<NDIRawMetadataFrame> {
    open spec fn obeys_from_spec() -> bool {
        true
    }

    open(crate) spec fn from_spec(cstr: CString) -> MetadataFrame {
        NDIFrame {
            raw: NDIRawMetadataFrame {
                length: NDIRawMetadataFrame::length_of(cstr@),
                timecode: NDI_TIME_DEFAULT,
                p_data: None,
            },
            alloc: FrameDataDropGuard::CString(cstr),
        }
    }
}

} // verus!
