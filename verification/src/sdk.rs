//! What concerns the SDK as a whole: startup and its failure.

use vstd::prelude::*;
use vstd::string::StringSliceAdditionalSpecFns;
use vstd::utf8::valid_utf8;
use crate::util::{CString, str_from_utf8};

verus! {

/// Reads the version that the SDK reported, `None` standing for a null
/// pointer. A version that is no text is no version.
pub fn version(reported: Option<&CString>) -> (version: Option<&str>)
    ensures
        match version {
            Some(text) => reported matches Some(bytes) && text.spec_bytes() == bytes@,
            None => reported matches Some(bytes) ==> !valid_utf8(bytes@),
        },
{
    match reported {
        Some(bytes) => str_from_utf8(bytes.as_bytes()),
        None => None,
    }
}

/// Why the SDK did not start.
#[non_exhaustive]
#[derive(Debug, Clone, Copy, PartialEq, Eq, Structural)]
pub enum NDIInitError {
    /// The CPU is not supported by the NDI SDK.
    /// NDI requires SSE4.2 instructions
    UnsupportedCPU,
    /// The SDK gave no reason.
    GenericError,
}

/// Reads the answers of the SDK at startup: whether it started and whether
/// it supports the CPU. Where it did not start, an unsupported CPU is the
/// reason if there is one.
pub fn initialize(initialized: bool, cpu_supported: bool) -> (started: Result<(), NDIInitError>)
    ensures
        started == if initialized {
            Ok::<(), NDIInitError>(())
        } else if !cpu_supported {
            Err::<(), NDIInitError>(NDIInitError::UnsupportedCPU)
        } else {
            Err::<(), NDIInitError>(NDIInitError::GenericError)
        },
{
    if initialized {
        Ok(())
    } else if !cpu_supported {
        Err(NDIInitError::UnsupportedCPU)
    } else {
        Err(NDIInitError::GenericError)
    }
}

} // verus!
