//! Server-assigned points in time.

use vstd::prelude::*;

verus! {

/// A point in time, as nanoseconds since the Unix epoch (UTC).
#[derive(Clone, Copy, Debug, PartialEq, Eq, Structural)]
pub struct Timestamp {
    pub unix_nanos: i128,
}

/// Relies on time::OffsetDateTime::now_utc and unix_timestamp_nanos: the
/// current time; nothing is known of its value.
#[verifier::external_body]
fn clock_now_nanos() -> (r: i128) {
    time::OffsetDateTime::now_utc().unix_timestamp_nanos()
}

impl Timestamp {
    /// The current time.
    pub fn now() -> (r: Timestamp) {
        Timestamp { unix_nanos: clock_now_nanos() }
    }

    pub fn from_unix_nanos(unix_nanos: i128) -> (r: Timestamp)
        ensures
            r.unix_nanos == unix_nanos,
    {
        Timestamp { unix_nanos }
    }

    /// Whether the instant lies in the closed interval `[after, before]`.
    pub fn within(&self, after: Timestamp, before: Timestamp) -> (r: bool)
        ensures
            r == (after.unix_nanos <= self.unix_nanos && self.unix_nanos <= before.unix_nanos),
    {
        after.unix_nanos <= self.unix_nanos && self.unix_nanos <= before.unix_nanos
    }
}

} // verus!
