//! Source descriptors are used to get the name of local and discovered
//! senders as well as telling a receiver unambiguously which source to
//! connect to.
//!
//! A source descriptor contains the name and optional internal connection
//! info, which saves the SDK from resolving the name by a search of its own.

use vstd::prelude::*;
use vstd::string::StringSliceAdditionalSpecFns;
use vstd::utf8::{decode_utf8, encode_utf8, valid_utf8};
use crate::util::{CString, SourceNameError, str_from_utf8, validate_source_name};

verus! {

/// A source as the SDK's structure describes it: two pointers to text,
/// either of which may be null.
#[derive(Debug, Clone, PartialEq, Eq, Hash)]
pub struct NDIRawSource {
    /// The name of the source, `MACHINE (NAME)`.
    pub p_ndi_name: Option<CString>,
    /// How to reach the source, where the SDK has found out.
    pub p_url_address: Option<CString>,
}

/// What is handed to the SDK to name a source, for the time of one call.
#[derive(Debug, Clone, Copy)]
pub struct SourceDescriptor<'a> {
    /// The name of the source.
    pub name: &'a CString,
    /// How to reach the source, if known.
    pub url_address: Option<&'a CString>,
}

impl<'a> SourceDescriptor<'a> {
    /// The texts of the descriptor: the name, and the address if there is
    /// one.
    pub open spec fn texts(&self) -> (Seq<u8>, Option<Seq<u8>>) {
        (
            self.name@,
            match self.url_address {
                Some(url) => Some(url@),
                None => None,
            },
        )
    }
}

/// Everything that can be used to refer to an NDI source
pub trait NDISourceLike {
    /// What the SDK is told: a name, with an address or without, or
    /// nothing at all, which stands for "no source".
    spec fn rendered(&self) -> Option<(Seq<u8>, Option<Seq<u8>>)>;

    /// Builds the descriptor of the source for the SDK. It borrows from the
    /// source, so it is good for as long as the source is left alone. `None`
    /// is handed to the SDK as a null pointer.
    fn with_descriptor(&self) -> (descriptor: Option<SourceDescriptor<'_>>)
        ensures
            match descriptor {
                Some(d) => self.rendered() == Some(d.texts()),
                None => self.rendered() is None,
            },
    ;
}

/// Represents no source, equivalent to passing a null pointer to the SDK
#[derive(Debug, Clone, Copy)]
pub struct NullPtrSource;

impl NDISourceLike for NullPtrSource {
    open spec fn rendered(&self) -> Option<(Seq<u8>, Option<Seq<u8>>)> {
        None
    }

    fn with_descriptor(&self) -> (descriptor: Option<SourceDescriptor<'_>>) {
        None
    }
}

impl<S: NDISourceLike> NDISourceLike for Option<S> {
    open spec fn rendered(&self) -> Option<(Seq<u8>, Option<Seq<u8>>)> {
        match self {
            Some(source) => source.rendered(),
            None => None,
        }
    }

    fn with_descriptor(&self) -> (descriptor: Option<SourceDescriptor<'_>>) {
        match self {
            Some(source) => source.with_descriptor(),
            None => None,
        }
    }
}

/// This is a short-lived/reference source descriptor: it borrows its texts
/// from what the SDK listed, and is good until the SDK lists anew.
#[derive(Debug, Clone, Copy)]
pub struct NDISourceRef<'a> {
    name: &'a CString,
    url_address: Option<&'a CString>,
}

impl<'a> NDISourceRef<'a> {
    /// The texts of the source: the name, and the address if there is one.
    pub closed spec fn texts(&self) -> (Seq<u8>, Option<Seq<u8>>) {
        (
            self.name@,
            match self.url_address {
                Some(url) => Some(url@),
                None => None,
            },
        )
    }

    /// The texts of what the SDK listed, if it has a name.
    pub open spec fn texts_of(source: &NDIRawSource) -> Option<(Seq<u8>, Option<Seq<u8>>)> {
        match source.p_ndi_name {
            Some(name) => Some(
                (
                    name@,
                    match source.p_url_address {
                        Some(url) => Some(url@),
                        None => None,
                    },
                ),
            ),
            None => None,
        }
    }

    /// Refers to a source that the SDK listed. The SDK lists no source
    /// without a name.
    pub fn from(source_t: &'a NDIRawSource) -> (source: NDISourceRef<'a>)
        requires
            source_t.p_ndi_name is Some,
        ensures
            Some(source.texts()) == Self::texts_of(source_t),
    {
        NDISourceRef {
            name: source_t.p_ndi_name.as_ref().unwrap(),
            url_address: source_t.p_url_address.as_ref(),
        }
    }

    /// Gets the name of the source
    pub fn name(&self) -> (name: &'a CString)
        ensures
            name@ == self.texts().0,
    {
        self.name
    }

    /// Tests whether the name is text, as [`NDISourceRef::to_owned`] asks.
    pub fn has_text_name(&self) -> (b: bool)
        ensures
            b == valid_utf8(self.texts().0),
    {
        str_from_utf8(self.name.as_bytes()).is_some()
    }

    /// Converts it to an owned [`NDISource`] by cloning all information
    pub fn to_owned(&self) -> (owned: NDISource)
        requires
            valid_utf8(self.texts().0),
        ensures
            owned.texts() == self.texts(),
            owned.name_text() == decode_utf8(self.texts().0),
    {
        let name = str_from_utf8(self.name.as_bytes()).unwrap().to_owned();
        proof {
            vstd::utf8::encode_utf8_decode_utf8(name@);
        }
        NDISource {
            name,
            name_c: self.name.duplicate(),
            descriptor_anon_1: match self.url_address {
                Some(url) => Some(url.duplicate()),
                None => None,
            },
        }
    }
}

impl NDISourceLike for &NDISourceRef<'_> {
    open spec fn rendered(&self) -> Option<(Seq<u8>, Option<Seq<u8>>)> {
        Some(self.texts())
    }

    fn with_descriptor(&self) -> (descriptor: Option<SourceDescriptor<'_>>) {
        Some(SourceDescriptor { name: self.name, url_address: self.url_address })
    }
}

/// long-lived/owned source descriptor
///
/// A source descriptor contains the name and optional internal connection
/// info (not exposed, used to avoid creating an internal finder to resolve
/// the name)
#[derive(Debug, PartialEq, Eq, Hash)]
pub struct NDISource {
    name: String,
    name_c: CString,
    descriptor_anon_1: Option<CString>,
}

impl NDISource {
    #[verifier::type_invariant]
    closed spec fn same_name(&self) -> bool {
        encode_utf8(self.name@) == self.name_c@
    }

    /// The name as text.
    pub closed spec fn name_text(&self) -> Seq<char> {
        self.name@
    }

    /// The texts of the source: the name, and the address if there is one.
    pub closed spec fn texts(&self) -> (Seq<u8>, Option<Seq<u8>>) {
        (
            self.name_c@,
            match self.descriptor_anon_1 {
                Some(url) => Some(url@),
                None => None,
            },
        )
    }

    /// Makes a source of its name alone. The SDK then has to find out by
    /// itself how to reach the source.
    pub fn from_name(name: &str) -> (made: Result<NDISource, SourceNameError>)
        ensures
            match made {
                Ok(source) => {
                    &&& source.name_text() == name@
                    &&& source.texts() == (name.spec_bytes(), None::<Seq<u8>>)
                    &&& crate::util::nul_free(name.spec_bytes())
                    &&& name.spec_bytes().len() <= crate::util::MAX_SOURCE_NAME_BYTES
                },
                Err(SourceNameError::NulError(e)) => {
                    &&& !crate::util::nul_free(name.spec_bytes())
                    &&& e.position() == crate::util::first_nul(name.spec_bytes())
                },
                Err(SourceNameError::TooLong) => {
                    &&& crate::util::nul_free(name.spec_bytes())
                    &&& name.spec_bytes().len() > crate::util::MAX_SOURCE_NAME_BYTES
                },
            },
    {
        match validate_source_name(name) {
            Ok(name_c) => Ok(NDISource { name: name.to_owned(), name_c, descriptor_anon_1: None }),
            Err(e) => Err(e),
        }
    }

    /// The name of the source as text.
    pub fn name(&self) -> (name: &str)
        ensures
            name@ == self.name_text(),
            name.spec_bytes() == self.texts().0,
    {
        proof {
            use_type_invariant(self);
        }
        self.name.as_str()
    }

    /// The name of the source as the SDK takes it.
    pub fn name_c_str(&self) -> (name: &CString)
        ensures
            name@ == self.texts().0,
    {
        &self.name_c
    }
}

impl Clone for NDISource {
    fn clone(&self) -> (copy: NDISource)
        ensures
            copy.texts() == self.texts(),
            copy.name_text() == self.name_text(),
    {
        proof {
            use_type_invariant(self);
        }
        NDISource {
            name: self.name.clone(),
            name_c: self.name_c.duplicate(),
            descriptor_anon_1: match &self.descriptor_anon_1 {
                Some(url) => Some(url.duplicate()),
                None => None,
            },
        }
    }
}

impl NDISourceLike for NDISource {
    open spec fn rendered(&self) -> Option<(Seq<u8>, Option<Seq<u8>>)> {
        Some(self.texts())
    }

    fn with_descriptor(&self) -> (descriptor: Option<SourceDescriptor<'_>>) {
        Some(SourceDescriptor { name: &self.name_c, url_address: self.descriptor_anon_1.as_ref() })
    }
}

impl NDISourceLike for &NDISource {
    open spec fn rendered(&self) -> Option<(Seq<u8>, Option<Seq<u8>>)> {
        Some(self.texts())
    }

    fn with_descriptor(&self) -> (descriptor: Option<SourceDescriptor<'_>>) {
        Some(SourceDescriptor { name: &self.name_c, url_address: self.descriptor_anon_1.as_ref() })
    }
}

} // verus!
