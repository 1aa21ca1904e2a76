//! Verified core of a safe layer around the NDI media-over-IP SDK.
//!
//! The native SDK is reached through raw pointers and opaque handles. What
//! this crate holds is everything such a layer has to decide by itself: the
//! resolution, pixel-format and stride arithmetic that must mirror the SDK's
//! memory layout, the closed sets of format codes, the ownership state of a
//! frame's backing memory, and the protocol that receivers and senders follow
//! around each native call. Every function states what it returns and is
//! proved to do so; none of them panics.
//!
//! The native calls themselves are made by the caller. Each operation that
//! surrounds one is split at the call: one function says what has to be
//! handed to the SDK, another takes what the SDK answered and moves the
//! frames and handles to their next state. What the SDK writes is handed over
//! as plain values, so that a frame never holds a pointer.
//!
//! ## Modules
//!
//! - [`resolution`], [`subsampling`], [`buffer_info`], [`four_cc`]: the
//!   geometry of a video buffer, computed from pixel format, resolution and
//!   field mode.
//! - [`enums`]: the modes that the SDK identifies by integer codes, and the
//!   conversion from and to those codes.
//! - [`frame`]: video, audio and metadata frames, each a descriptor together
//!   with the state of its memory: none, the SDK's, or the caller's.
//! - [`receiver`], [`sender`]: the handles that produce and consume frames,
//!   and what they do before and after each native call.
//! - [`source`], [`find`], [`router`]: naming sources, listing them, and
//!   routing to them.
//! - [`sdk`], [`tally`], [`timecode`], [`blocking_update`], [`util`]: startup,
//!   tally state, time stamps, results of blocking queries, and the
//!   conversions of timeouts and text.
//!
//! ## Where a caller has to stop
//!
//! Some answers of the SDK mean that it has broken its own interface: it
//! reports a frame for which it was handed no slot, or a line stride that
//! does not fit the layout. The functions that take such answers ask in their
//! `requires` that the answer is none of these, and beside each stands a
//! function that tests it. A caller that is not verified runs the test and
//! stops if it fails.

pub mod blocking_update;
pub mod buffer_info;
pub mod enums;
pub mod find;
pub mod four_cc;
pub mod frame;
pub mod receiver;
pub mod resolution;
pub mod router;
pub mod sdk;
pub mod sender;
pub mod source;
pub mod subsampling;
pub mod tally;
pub mod timecode;
pub mod util;
