//! Points in time as the remote service reports them.

use core::cmp::Ordering;
use vstd::prelude::*;
use vstd::std_specs::cmp::{PartialEqSpecImpl, PartialOrdSpecImpl};

verus! {

/// A date and time with the UTC offset it was written in.
///
/// The instant is counted in nanoseconds since the Unix epoch. The offset only
/// records how the instant was written down: two timestamps that name the same
/// instant are equal, whatever their offsets, and order is the order of instants.
#[derive(Clone, Copy, Debug)]
pub struct Timestamp {
    /// Nanoseconds since 1970-01-01T00:00:00Z.
    pub unix_nanos: i128,
    /// Seconds east of UTC of the written form.
    pub offset_seconds: i32,
}

impl Timestamp {
    /// The instant this timestamp names, in nanoseconds since the Unix epoch.
    pub open spec fn instant(self) -> int {
        self.unix_nanos as int
    }

    /// A timestamp for the given instant, written at the given offset.
    pub fn new(unix_nanos: i128, offset_seconds: i32) -> (t: Timestamp)
        ensures
            t == (Timestamp { unix_nanos, offset_seconds }),
    {
        Timestamp { unix_nanos, offset_seconds }
    }

    /// A timestamp for the given instant, written in UTC.
    pub fn utc(unix_nanos: i128) -> (t: Timestamp)
        ensures
            t == (Timestamp { unix_nanos, offset_seconds: 0 }),
    {
        Timestamp { unix_nanos, offset_seconds: 0 }
    }

    /// Whether this timestamp is at or after `other`.
    pub fn at_or_after(&self, other: &Timestamp) -> (r: bool)
        ensures
            r == (self.instant() >= other.instant()),
    {
        self.unix_nanos >= other.unix_nanos
    }
}

impl PartialEq for Timestamp {
    fn eq(&self, other: &Timestamp) -> (r: bool) {
        self.unix_nanos == other.unix_nanos
    }
}

impl Eq for Timestamp {}

impl PartialEqSpecImpl for Timestamp {
    open spec fn obeys_eq_spec() -> bool {
        true
    }

    open spec fn eq_spec(&self, other: &Timestamp) -> bool {
        self.unix_nanos == other.unix_nanos
    }
}

impl PartialOrd for Timestamp {
    fn partial_cmp(&self, other: &Timestamp) -> (r: Option<Ordering>) {
        if self.unix_nanos < other.unix_nanos {
            Some(Ordering::Less)
        } else if self.unix_nanos > other.unix_nanos {
            Some(Ordering::Greater)
        } else {
            Some(Ordering::Equal)
        }
    }
}

impl PartialOrdSpecImpl for Timestamp {
    open spec fn obeys_partial_cmp_spec() -> bool {
        true
    }

    open spec fn partial_cmp_spec(&self, other: &Timestamp) -> Option<Ordering> {
        if self.unix_nanos < other.unix_nanos {
            Some(Ordering::Less)
        } else if self.unix_nanos > other.unix_nanos {
            Some(Ordering::Greater)
        } else {
            Some(Ordering::Equal)
        }
    }
}

} // verus!
