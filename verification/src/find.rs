//! NDI source finder
//!
//! This is provided to locate sources available on the network and is
//! normally used in conjunction with a receiver. It commonly takes a few
//! seconds to locate all the sources available, since this requires other
//! running machines to send response messages.

use vstd::prelude::*;
use std::time::Duration;
use crate::blocking_update::BlockingUpdate;
use crate::source::{NDIRawSource, NDISourceRef};
use crate::util::{duration_to_ms, timeout_millis};

verus! {

/// Builder for [`NDISourceFinder`]
#[non_exhaustive]
#[derive(Debug, Clone, Copy)]
pub struct NDISourceFinderBuilder {
    show_local_sources: bool,
}

impl Default for NDISourceFinderBuilder {
    fn default() -> (builder: NDISourceFinderBuilder)
        ensures
            builder.shows_local_sources(),
    {
        NDISourceFinderBuilder { show_local_sources: true }
    }
}

impl NDISourceFinderBuilder {
    /// Sources of this device are to be listed too.
    pub closed spec fn shows_local_sources(&self) -> bool {
        self.show_local_sources
    }

    /// A builder of a finder that lists the sources of this device too.
    pub fn new() -> (builder: NDISourceFinderBuilder)
        ensures
            builder.shows_local_sources(),
    {
        NDISourceFinderBuilder { show_local_sources: true }
    }

    /// Show sources from this device (default: true)
    pub fn show_local_sources(self, show: bool) -> (builder: NDISourceFinderBuilder)
        ensures
            builder.shows_local_sources() == show,
    {
        NDISourceFinderBuilder { show_local_sources: show }
    }

    /// Says what the SDK is told to create the finder: whether to list
    /// local sources. Groups and extra addresses are left to the SDK's
    /// defaults.
    pub fn create_options(&self) -> (show_local_sources: bool)
        ensures
            show_local_sources == self.shows_local_sources(),
    {
        self.show_local_sources
    }

    /// Takes the address that the SDK returned on creation. A null address
    /// means that no finder was created.
    pub fn build(self, handle: usize) -> (built: Option<NDISourceFinder>)
        ensures
            match built {
                Some(finder) => handle != 0 && finder.addr() == handle && finder.listed().len() == 0,
                None => handle == 0,
            },
    {
        if handle == 0 {
            None
        } else {
            Some(NDISourceFinder { handle, sources: Vec::new() })
        }
    }
}

/// NDI Source finder
///
/// It keeps what the SDK listed last. References to the listed sources
/// borrow from the finder, so none of them is left when the SDK is asked
/// again.
#[derive(Debug)]
pub struct NDISourceFinder {
    handle: usize,
    sources: Vec<NDIRawSource>,
}

impl NDISourceFinder {
    #[verifier::type_invariant]
    closed spec fn non_null(&self) -> bool {
        self.handle != 0
    }

    /// The address of the native instance.
    pub closed spec fn addr(&self) -> usize {
        self.handle
    }

    /// What the SDK listed last.
    pub closed spec fn listed(&self) -> Seq<NDIRawSource> {
        self.sources@
    }

    /// Every source of a list has a name.
    pub open spec fn all_named(sources: Seq<NDIRawSource>) -> bool {
        forall|i: int| 0 <= i < sources.len() ==> (#[trigger] sources[i]).p_ndi_name is Some
    }

    /// The address to hand to the SDK.
    pub fn address(&self) -> (ptr: usize)
        ensures
            ptr == self.addr(),
            ptr != 0,
    {
        proof {
            use_type_invariant(self);
        }
        self.handle
    }

    /// Tests whether every source of a list has a name, as
    /// [`NDISourceFinder::get_source_iter`] asks.
    pub fn check_all_named(sources: &Vec<NDIRawSource>) -> (b: bool)
        ensures
            b == Self::all_named(sources@),
    {
        let mut i: usize = 0;
        while i < sources.len()
            invariant
                i <= sources.len(),
                forall|k: int| 0 <= k < i ==> (#[trigger] sources@[k]).p_ndi_name is Some,
            decreases sources.len() - i,
        {
            if sources[i].p_ndi_name.is_none() {
                return false;
            }
            i += 1;
        }
        true
    }

    /// Takes the list of sources that the SDK returned, `None` standing for
    /// a null pointer, and refers to each source of it, in the order of the
    /// list. The list replaces the one that the finder kept; the references
    /// are good until the SDK is asked again.
    pub fn get_source_iter<'a>(&'a mut self, current: Option<Vec<NDIRawSource>>) -> (sources:
        Option<Vec<NDISourceRef<'a>>>)
        requires
            current matches Some(list) ==> Self::all_named(list@),
        ensures
            final(self).addr() == old(self).addr(),
            match current {
                None => sources is None && final(self).listed() == old(self).listed(),
                Some(list) => {
                    &&& final(self).listed() == list@
                    &&& sources matches Some(refs)
                    &&& refs@.len() == list@.len()
                    &&& forall|i: int|
                        0 <= i < list@.len() ==> Some((#[trigger] refs@[i]).texts())
                            == NDISourceRef::texts_of(&list@[i])
                },
            },
    {
        let list = match current {
            Some(list) => list,
            None => {
                return None;
            },
        };
        proof {
            use_type_invariant(&*self);
        }
        self.sources = list;
        let kept: &'a Vec<NDIRawSource> = &self.sources;
        let mut refs: Vec<NDISourceRef<'a>> = Vec::new();
        let mut i: usize = 0;
        while i < kept.len()
            invariant
                i <= kept.len(),
                Self::all_named(kept@),
                refs@.len() == i,
                forall|k: int|
                    0 <= k < i ==> Some((#[trigger] refs@[k]).texts()) == NDISourceRef::texts_of(
                        &kept@[k],
                    ),
            decreases kept.len() - i,
        {
            refs.push(NDISourceRef::from(&kept[i]));
            i += 1;
        }
        Some(refs)
    }

    /// Says how long the SDK is to wait for the list of sources to change:
    /// the timeout in milliseconds, clamped to 32 bits.
    pub fn wait_request(&self, timeout: Duration) -> (millis: u32)
        ensures
            millis == timeout_millis(timeout),
    {
        duration_to_ms(timeout)
    }

    /// Reads the answer of the SDK after waiting for the list of sources to
    /// change: whether it changed before the timeout was reached.
    pub fn wait_for_change(&mut self, changed: bool) -> (update: BlockingUpdate<()>)
        ensures
            *final(self) == *old(self),
            update.changed() == changed,
    {
        BlockingUpdate::new((), changed)
    }
}

} // verus!
