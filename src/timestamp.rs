use vstd::prelude::*;

verus! {

/// A file modification time: whole seconds relative to the Unix epoch
/// (negative before it) and the nanoseconds within that second.
#[derive(Clone, Copy, Debug)]
pub struct Timestamp {
    pub seconds: i64,
    pub nanos: u32,
}

impl Timestamp {
    /// Whether `self` lies strictly later in time than `other`.
    pub open spec fn is_after(self, other: Timestamp) -> bool {
        self.seconds > other.seconds || (self.seconds == other.seconds && self.nanos > other.nanos)
    }

    pub fn new(seconds: i64, nanos: u32) -> (r: Timestamp)
        ensures
            r.seconds == seconds,
            r.nanos == nanos,
    {
        Timestamp { seconds, nanos }
    }

    /// Strict comparison: equal times are not newer.
    pub fn newer_than(&self, other: &Timestamp) -> (r: bool)
        ensures
            r == self.is_after(*other),
    {
        self.seconds > other.seconds || (self.seconds == other.seconds && self.nanos > other.nanos)
    }
}

} // verus!
