use vstd::prelude::*;

verus! {

/// An instant in UTC: whole seconds since the Unix epoch and the
/// sub-second part in nanoseconds (at or above one second only inside a
/// leap second). Instants are ordered by seconds, then by nanoseconds.
#[derive(Clone, Copy, Debug, PartialEq, Eq, Structural)]
pub struct Timestamp {
    pub secs: i64,
    pub nanos: u32,
}

impl Timestamp {
    /// `self` lies strictly before `other`.
    pub open spec fn precedes(self, other: Timestamp) -> bool {
        self.secs < other.secs || (self.secs == other.secs && self.nanos < other.nanos)
    }

    /// Whether `self` lies strictly before `other`.
    pub fn is_before(&self, other: &Timestamp) -> (b: bool)
        ensures
            b == self.precedes(*other),
    {
        self.secs < other.secs || (self.secs == other.secs && self.nanos < other.nanos)
    }
}

/// The current time, from `chrono::Utc::now`. Claims only what holds of
/// every `DateTime<Utc>`: its seconds lie within chrono's range of about
/// ±262,000 years; the value itself is whatever the system clock reads.
#[verifier::external_body]
pub(crate) fn now() -> (t: Timestamp)
    ensures
        -9_000_000_000_000 < t.secs < 9_000_000_000_000,
{
    let n = chrono::Utc::now();
    Timestamp { secs: n.timestamp(), nanos: n.timestamp_subsec_nanos() }
}

} // verus!
