//! NDI Router
//!
//! Using NDI routing, you can create an output on a machine that looks just
//! like a 'real' video source to all remote systems. However, rather than
//! producing actual video frames, it directs sources watching this output to
//! receive video from a different location.

use vstd::prelude::*;
use vstd::string::StringSliceAdditionalSpecFns;
use crate::source::{NDIRawSource, NDISourceLike, NDISourceRef, SourceDescriptor};
use crate::util::{
    CString, MAX_SOURCE_NAME_BYTES, SourceNameError, first_nul, nul_free, validate_source_name,
};

verus! {

/// Builder for [`NDIRouter`]
#[derive(Debug)]
pub struct NDIRouterBuilder {
    name: CString,
}

impl NDIRouterBuilder {
    /// The name under which the router will be found.
    pub closed spec fn name(&self) -> Seq<u8> {
        self.name@
    }

    /// Creates a new [`NDIRouterBuilder`] with the given source name
    ///
    /// The SDK limits the name of a source to 253 bytes. A longer name is
    /// refused and not cut short; so is one that holds a zero byte.
    pub fn new(name: &str) -> (made: Result<NDIRouterBuilder, SourceNameError>)
        ensures
            match made {
                Ok(builder) => {
                    &&& builder.name() == name.spec_bytes()
                    &&& nul_free(name.spec_bytes())
                    &&& name.spec_bytes().len() <= MAX_SOURCE_NAME_BYTES
                },
                Err(SourceNameError::NulError(e)) => {
                    &&& !nul_free(name.spec_bytes())
                    &&& e.position() == first_nul(name.spec_bytes())
                },
                Err(SourceNameError::TooLong) => {
                    &&& nul_free(name.spec_bytes())
                    &&& name.spec_bytes().len() > MAX_SOURCE_NAME_BYTES
                },
            },
    {
        match validate_source_name(name) {
            Ok(name) => Ok(NDIRouterBuilder { name }),
            Err(e) => Err(e),
        }
    }

    /// Says what the SDK is told to create the router: its name. The groups
    /// are left to the SDK's defaults.
    pub fn create_options(&self) -> (name: &CString)
        ensures
            name@ == self.name(),
    {
        &self.name
    }

    /// Takes the address that the SDK returned on creation. A null address
    /// means that no router was created.
    pub fn build(self, handle: usize) -> (built: Result<NDIRouter, NDIRouterBuilderError>)
        ensures
            match built {
                Ok(router) => handle != 0 && router.addr() == handle,
                Err(NDIRouterBuilderError::CreationFailed) => handle == 0,
            },
    {
        if handle == 0 {
            return Err(NDIRouterBuilderError::CreationFailed);
        }
        Ok(NDIRouter { handle })
    }
}

/// Why no router was built.
#[non_exhaustive]
#[derive(Debug, Clone, Copy, PartialEq, Eq, Structural)]
pub enum NDIRouterBuilderError {
    /// The SDK returned no instance.
    CreationFailed,
}

/// NDI Router: a source that can be found, and that sends whoever watches
/// it on to another source.
#[derive(Debug)]
pub struct NDIRouter {
    handle: usize,
}

impl NDIRouter {
    #[verifier::type_invariant]
    closed spec fn non_null(&self) -> bool {
        self.handle != 0
    }

    /// The address of the native instance.
    pub closed spec fn addr(&self) -> usize {
        self.handle
    }

    /// The address to hand to the SDK.
    pub fn address(&self) -> (ptr: usize)
        ensures
            ptr == self.addr(),
            ptr != 0,
    {
        proof {
            use_type_invariant(self);
        }
        self.handle
    }

    /// Says which source the SDK is told to route to. For "no source" the
    /// SDK is told to clear the routing instead.
    pub fn switch_request<'a, Source: NDISourceLike>(&self, source: &'a Source) -> (target: Option<
        SourceDescriptor<'a>,
    >)
        ensures
            match target {
                Some(d) => source.rendered() == Some(d.texts()),
                None => source.rendered() is None,
            },
    {
        source.with_descriptor()
    }

    /// Reads the answer of the SDK to a change of the routing.
    pub fn switch(&mut self, changed: bool) -> (done: Option<()>)
        ensures
            *final(self) == *old(self),
            done is Some <==> changed,
    {
        if changed {
            Some(())
        } else {
            None
        }
    }

    /// Reads the answer of the SDK to a clearing of the routing.
    pub fn switch_clear(&mut self, cleared: bool) -> (done: Option<()>)
        ensures
            *final(self) == *old(self),
            done is Some <==> cleared,
    {
        if cleared {
            Some(())
        } else {
            None
        }
    }

    /// Refers to the description of this router that the SDK returned: what
    /// a receiver needs to connect to it.
    pub fn get_source<'a>(&'a self, source: &'a NDIRawSource) -> (described: NDISourceRef<'a>)
        requires
            source.p_ndi_name is Some,
        ensures
            Some(described.texts()) == NDISourceRef::texts_of(source),
    {
        NDISourceRef::from(source)
    }
}

} // verus!
