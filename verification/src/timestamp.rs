//! Instants on the wall clock, counted from the Unix epoch.

use vstd::prelude::*;

verus! {

/// Nanoseconds in one second.
pub const NANOS_PER_SEC: u128 = 1_000_000_000;

/// The largest number of whole seconds after the epoch that an instant
/// reached by addition may have: the range of a signed 64-bit second count.
pub const MAX_SECS: u64 = 9_223_372_036_854_775_807;

/// The first nanosecond count that lies beyond `MAX_SECS` whole seconds.
pub const RANGE_END: u128 = 9_223_372_036_854_775_808_000_000_000;

/// An instant, held as the nanoseconds that have passed since the Unix epoch.
#[derive(Debug, Clone, Copy, PartialEq, Eq, Structural)]
pub struct Timestamp {
    pub nanos: u128,
}

impl View for Timestamp {
    type V = int;

    /// The nanoseconds since the epoch, as a mathematical integer.
    open spec fn view(&self) -> int {
        self.nanos as int
    }
}

impl DeepView for Timestamp {
    type V = int;

    open spec fn deep_view(&self) -> int {
        self@
    }
}

/// Whether a nanosecond count lies within `MAX_SECS` whole seconds of the epoch.
pub open spec fn within_range(nanos: int) -> bool {
    0 <= nanos < RANGE_END as int
}

/// The instant `secs` seconds after `start`, if it is within range.
pub open spec fn instant_after(start: int, secs: int) -> Option<int> {
    if within_range(start + secs * (NANOS_PER_SEC as int)) {
        Some(start + secs * (NANOS_PER_SEC as int))
    } else {
        None
    }
}

impl Timestamp {
    /// The Unix epoch itself.
    pub fn epoch() -> (t: Timestamp)
        ensures
            t@ == 0,
    {
        Timestamp { nanos: 0 }
    }

    /// The instant `secs` whole seconds and `subsec_nanos` nanoseconds after
    /// the epoch.
    pub fn from_unix(secs: u64, subsec_nanos: u32) -> (t: Timestamp)
        ensures
            t@ == secs as int * (NANOS_PER_SEC as int) + subsec_nanos as int,
    {
        let whole: u128 = (secs as u128) * NANOS_PER_SEC;
        Timestamp { nanos: whole + subsec_nanos as u128 }
    }

    /// The nanoseconds since the epoch.
    pub fn unix_nanos(&self) -> (n: u128)
        ensures
            n as int == self@,
    {
        self.nanos
    }

    /// This instant moved `secs` seconds into the future, or `None` where
    /// that would leave the range of the clock.
    pub fn checked_add_secs(&self, secs: u64) -> (moved: Option<Timestamp>)
        ensures
            moved.is_some() == instant_after(self@, secs as int).is_some(),
            moved matches Some(t) ==> Some(t@) == instant_after(self@, secs as int),
    {
        if self.nanos >= RANGE_END {
            return None;
        }
        let span: u128 = (secs as u128) * NANOS_PER_SEC;
        let sum: u128 = self.nanos + span;
        if sum < RANGE_END {
            Some(Timestamp { nanos: sum })
        } else {
            None
        }
    }

    /// Whether this instant lies strictly before `other`.
    pub fn is_before(&self, other: &Timestamp) -> (earlier: bool)
        ensures
            earlier == (self@ < other@),
    {
        self.nanos < other.nanos
    }
}

} // verus!
