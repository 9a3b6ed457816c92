//! Points in time, computed and written by chrono.

use chrono::{DateTime, Duration, Utc};
use vstd::prelude::*;

verus! {

/// A point in time: whole seconds since the Unix epoch, and the nanoseconds since then.
#[derive(Clone, Copy, Debug, PartialEq, Eq, Structural)]
pub struct Timestamp {
    pub seconds: i64,
    pub nanos: u32,
}

/// The first second of the first year that chrono represents.
pub const MIN_SECONDS: i64 = -8_334_601_228_800;

/// The last second of the last year that chrono represents.
pub const MAX_SECONDS: i64 = 8_210_266_876_799;

pub const SECONDS_PER_DAY: i64 = 86_400;

impl Timestamp {
    /// The point lies in the years that chrono represents, outside a leap second.
    pub open spec fn valid(self) -> bool {
        &&& MIN_SECONDS <= self.seconds <= MAX_SECONDS
        &&& self.nanos < 1_000_000_000
    }

    /// Whether the point is valid.
    pub fn check(&self) -> (res: bool)
        ensures
            res == self.valid(),
    {
        MIN_SECONDS <= self.seconds && self.seconds <= MAX_SECONDS && self.nanos < 1_000_000_000
    }
}

/// The text in which `DateTime::to_rfc3339` writes a point in time in UTC.
pub uninterp spec fn rfc3339_text(seconds: i64, nanos: u32) -> Seq<char>;

/// `DateTime::<Utc>::to_rfc3339`, on the point that `DateTime::from_timestamp` makes of the
/// seconds and nanoseconds. The text depends on the point in time alone.
#[verifier::external_body]
pub(crate) fn rfc3339(at: Timestamp) -> (res: String)
    requires
        at.valid(),
    ensures
        res@ == rfc3339_text(at.seconds, at.nanos),
{
    DateTime::<Utc>::from_timestamp(at.seconds, at.nanos).unwrap().to_rfc3339()
}

/// Subtraction of `Duration::days` from a `DateTime<Utc>`: the point lies as many times
/// 86,400 seconds earlier, at the same nanosecond. Where it would lie before the first year
/// that chrono represents, the subtraction panics.
#[verifier::external_body]
pub(crate) fn days_before(at: Timestamp, days: u32) -> (res: Timestamp)
    requires
        at.valid(),
        MIN_SECONDS <= at.seconds - days * SECONDS_PER_DAY,
    ensures
        res.seconds == at.seconds - days * SECONDS_PER_DAY,
        res.nanos == at.nanos,
{
    let moved = DateTime::<Utc>::from_timestamp(at.seconds, at.nanos).unwrap()
        - Duration::days(i64::from(days));
    Timestamp { seconds: moved.timestamp(), nanos: moved.timestamp_subsec_nanos() }
}

} // verus!
