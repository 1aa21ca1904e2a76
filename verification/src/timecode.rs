//! Time stamps of frames.

use vstd::prelude::*;

verus! {

/// The value that stands for "no time": on a received frame the time stamp is
/// undefined, on a frame to send the SDK is to take the time from its clock.
pub const NDI_TIME_DEFAULT: i64 = 0x7fff_ffff_ffff_ffff;

/// Number of 100 ns intervals in a second.
pub const INTERVALS_PER_SECOND: u64 = 10_000_000;

/// This is the timecode of a frame in 100 ns intervals since the Unix epoch,
/// 1970-01-01 00:00 UTC. The SDK passes it through to applications, which
/// may interpret it as they wish.
#[derive(Debug, Clone, Copy, PartialEq, Eq, PartialOrd, Ord, Hash, Structural)]
pub struct NDITime(pub i64);

/// A point in time as a distance from the Unix epoch.
#[derive(Debug, Clone, Copy, PartialEq, Eq, Structural)]
pub struct EpochOffset {
    /// The point lies before the epoch.
    pub before_epoch: bool,
    /// Whole seconds between the epoch and the point.
    pub secs: u64,
    /// Nanoseconds beyond the whole seconds, below one second.
    pub subsec_nanos: u32,
}

impl EpochOffset {
    /// The distance in 100 ns intervals.
    pub open spec fn intervals(&self) -> int {
        self.secs * INTERVALS_PER_SECOND + self.subsec_nanos / 100
    }
}

impl NDITime {
    /// The time stamp is the value that stands for "no time".
    pub open spec fn unset(self) -> bool {
        self.0 == NDI_TIME_DEFAULT
    }

    /// The distance of the time stamp from the epoch, in 100 ns intervals.
    /// The one value whose distance does not fit 63 bits counts as the
    /// largest that does.
    pub open spec fn distance(self) -> int {
        if self.0 >= 0 {
            self.0 as int
        } else if self.0 == i64::MIN {
            i64::MAX as int
        } else {
            -self.0
        }
    }

    /// The marker of "no time" on a received frame.
    pub fn undefined() -> (time: NDITime)
        ensures
            time.unset(),
            time.0 == NDI_TIME_DEFAULT,
    {
        NDITime(NDI_TIME_DEFAULT)
    }

    /// Advises the SDK to generate a timecode for the frame from the system
    /// clock.
    pub fn synthesize() -> (time: NDITime)
        ensures
            time.unset(),
            time.0 == NDI_TIME_DEFAULT,
    {
        NDITime(NDI_TIME_DEFAULT)
    }

    pub fn to_ffi(self) -> (time: i64)
        ensures
            time == self.0,
    {
        self.0
    }

    pub fn from_ffi(time: i64) -> (stamp: NDITime)
        ensures
            stamp.0 == time,
    {
        NDITime(time)
    }

    pub fn is_default(self) -> (b: bool)
        ensures
            b == self.unset(),
    {
        self.0 == NDI_TIME_DEFAULT
    }

    /// Converts the time stamp to a distance from the Unix epoch. There is
    /// none for the value that stands for "no time".
    pub fn to_utc(self) -> (offset: Option<EpochOffset>)
        ensures
            self.unset() <==> offset is None,
            offset matches Some(o) ==> {
                &&& o.before_epoch == (self.0 < 0)
                &&& o.intervals() == self.distance()
                &&& o.subsec_nanos < 1_000_000_000
                &&& o.subsec_nanos % 100 == 0
            },
    {
        if self.is_default() {
            return None;
        }
        let before_epoch = self.0 < 0;
        let distance: u64 = if self.0 >= 0 {
            self.0 as u64
        } else if self.0 == i64::MIN {
            i64::MAX as u64
        } else {
            (-self.0) as u64
        };
        let secs = distance / INTERVALS_PER_SECOND;
        let sub_100ns = distance % INTERVALS_PER_SECOND;
        let subsec_nanos = (sub_100ns * 100) as u32;
        Some(EpochOffset { before_epoch, secs, subsec_nanos })
    }
}

impl Default for NDITime {
    fn default() -> (time: NDITime)
        ensures
            time.unset(),
    {
        NDITime(NDI_TIME_DEFAULT)
    }
}

} // verus!
