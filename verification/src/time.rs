//! Wire timestamps and the internal monotonic time representation.

use vstd::prelude::*;

verus! {

/// Number of nanoseconds in one second.
pub const NANOS_PER_SEC: u32 = 1_000_000_000;

/// A timestamp as it arrives on the wire: a signed second count paired with a
/// signed nanosecond offset. Nothing is guaranteed about the fields; the
/// conversion below decides whether the pair is usable.
#[derive(Clone, Copy, Debug, PartialEq, Eq, Structural)]
pub struct Timestamp {
    pub secs: i64,
    pub nanos: i32,
}

/// The runtime's internal monotonic time: a signed second count and a
/// nanosecond offset that is always below one second.
#[derive(Clone, Copy, Debug, PartialEq, Eq, Structural)]
pub struct MonotonicTime {
    pub secs: i64,
    pub nanos: u32,
}

impl MonotonicTime {
    /// The nanosecond field never reaches a full second.
    pub open spec fn wf(self) -> bool {
        self.nanos < NANOS_PER_SEC
    }
}

/// A wire timestamp converts to a monotonic time exactly when its nanosecond
/// field lies in `[0, NANOS_PER_SEC)`.
pub open spec fn timestamp_convertible(t: Timestamp) -> bool {
    0 <= t.nanos < NANOS_PER_SEC
}

/// Converts a wire timestamp to the internal monotonic time representation.
///
/// Returns `Some` exactly when the timestamp's nanosecond field is a valid
/// sub-second offset; the second count is taken over unchanged.
pub fn timestamp_to_monotonic(t: Timestamp) -> (r: Option<MonotonicTime>)
    ensures
        r is Some <==> timestamp_convertible(t),
        r matches Some(m) ==> m.wf() && m.secs == t.secs && m.nanos == t.nanos,
{
    if t.nanos >= 0 && (t.nanos as u32) < NANOS_PER_SEC {
        Some(MonotonicTime { secs: t.secs, nanos: t.nanos as u32 })
    } else {
        None
    }
}

} // verus!
