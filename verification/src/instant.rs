use vstd::prelude::*;

verus! {

/// An absolute moment: whole seconds since the Unix epoch, and the
/// nanoseconds that have passed since that second began.
///
/// `nanos` is usually below one second; a clock that represents a leap second
/// reports it as a count of a second or more, and the model simply adds it.
#[derive(Clone, Copy, Debug, PartialEq, Eq, Structural)]
pub struct Instant {
    pub secs: i64,
    pub nanos: u32,
}

impl Instant {
    /// The moment as one number: nanoseconds since the Unix epoch.
    pub open spec fn total_nanos(self) -> int {
        self.secs * 1_000_000_000 + self.nanos
    }

    /// The moment `secs` seconds and `nanos` nanoseconds after the epoch.
    pub fn new(secs: i64, nanos: u32) -> (at: Instant)
        ensures
            at.secs == secs,
            at.nanos == nanos,
            at.total_nanos() == secs * 1_000_000_000 + nanos,
    {
        Instant { secs, nanos }
    }
}

} // verus!
