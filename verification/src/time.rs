//! UTC instants and the time ranges that searches cover.

use vstd::prelude::*;

verus! {

/// How far back a fresh search looks, in seconds.
pub const LOOKBACK_SECS: i64 = 3600;

/// A UTC instant: whole seconds since 1970-01-01T00:00:00Z, and the
/// nanoseconds that have passed since that second began.
///
/// Instants are ordered by `secs` first and `nanos` second. Within a leap
/// second `nanos` runs past 999,999,999, so such an instant still sorts
/// before the second that follows it.
#[derive(Clone, Copy, Debug, PartialEq, Eq, PartialOrd, Ord, Hash, Structural)]
pub struct Instant {
    pub secs: i64,
    pub nanos: u32,
}

impl Instant {
    /// `self` is not later than `other`.
    pub open spec fn le(self, other: Instant) -> bool {
        self.secs < other.secs || (self.secs == other.secs && self.nanos <= other.nanos)
    }

    /// The instant `LOOKBACK_SECS` seconds before `self` can be held: its
    /// seconds fit in an `i64`.
    pub open spec fn can_look_back(self) -> bool {
        self.secs - LOOKBACK_SECS >= i64::MIN
    }

    /// The instant `LOOKBACK_SECS` seconds before `self`.
    pub open spec fn lookback(self) -> Instant
        recommends
            self.can_look_back(),
    {
        Instant { secs: (self.secs - LOOKBACK_SECS) as i64, nanos: self.nanos }
    }

    pub fn new(secs: i64, nanos: u32) -> (t: Instant)
        ensures
            t.secs == secs,
            t.nanos == nanos,
    {
        Instant { secs, nanos }
    }
}

/// The span of time that one search covers, from `start` to `end`.
#[derive(Clone, Copy, Debug, PartialEq, Eq, Hash, Structural)]
pub struct TimeRange {
    pub start: Instant,
    pub end: Instant,
}

impl TimeRange {
    /// The range a fresh search covers when the clock reads `now`.
    pub open spec fn recent(now: Instant) -> TimeRange {
        TimeRange { start: now.lookback(), end: now }
    }

    /// The range from `LOOKBACK_SECS` seconds before `now` up to `now`.
    pub fn ending_at(now: Instant) -> (range: TimeRange)
        requires
            now.can_look_back(),
        ensures
            range == TimeRange::recent(now),
    {
        TimeRange { start: Instant { secs: now.secs - LOOKBACK_SECS, nanos: now.nanos }, end: now }
    }
}

/// Every instant is ordered against itself, and the order is transitive and
/// total.
pub proof fn lemma_instant_order(a: Instant, b: Instant, c: Instant)
    ensures
        a.le(a),
        a.le(b) || b.le(a),
        a.le(b) && b.le(a) ==> a == b,
        a.le(b) && b.le(c) ==> a.le(c),
{
}

} // verus!
