//! Points in time (UTC), as the `chrono` crate represents them: whole seconds
//! since the Unix epoch and a sub-second part in nanoseconds.

use vstd::prelude::*;

verus! {

/// The earliest second that `chrono` can represent (January 1, 262144 BCE).
pub const MIN_TIMESTAMP_SECS: i64 = -8334601228800i64;

/// The last second that `chrono` can represent (December 31, 262142 CE).
pub const MAX_TIMESTAMP_SECS: i64 = 8210266876799i64;

/// A point in time in UTC, within the range `chrono` can represent and
/// without a leap second.
#[derive(Clone, Copy, Debug, PartialEq, Eq, Structural)]
pub struct Timestamp {
    secs: i64,
    nanos: u32,
}

/// Seconds and nanoseconds that make a valid timestamp.
pub open spec fn valid_timestamp(secs: i64, nanos: u32) -> bool {
    MIN_TIMESTAMP_SECS <= secs <= MAX_TIMESTAMP_SECS && nanos < 1_000_000_000
}

/// What `chrono::DateTime::<Utc>::to_rfc3339` writes for the time with the
/// given seconds and nanoseconds since the epoch.
pub uninterp spec fn rfc3339_text(secs: i64, nanos: u32) -> Seq<char>;

/// Calls `chrono::DateTime::<Utc>::from_timestamp` and then `to_rfc3339`. The
/// text (date, time, fractional seconds as needed, offset `+00:00`) is named
/// by `rfc3339_text`. `from_timestamp` gives a value on every valid
/// timestamp, so the `unwrap` cannot fail under the precondition.
#[verifier::external_body]
fn format_rfc3339(secs: i64, nanos: u32) -> (r: String)
    requires
        valid_timestamp(secs, nanos),
    ensures
        r@ == rfc3339_text(secs, nanos),
{
    chrono::DateTime::from_timestamp(secs, nanos).unwrap().to_rfc3339()
}

/// Calls `chrono::Utc::now`, returning its seconds and nanoseconds since
/// the epoch. The current time depends on the clock, so which time comes
/// back is left unsaid; what holds of every outcome is that it is a
/// `DateTime` that `chrono` can represent, with less than a second of
/// nanoseconds and no leap second (the system clock and the JavaScript
/// clock produce none).
#[verifier::external_body]
fn current_time() -> (r: (i64, u32))
    ensures
        valid_timestamp(r.0, r.1),
{
    let now = chrono::Utc::now();
    (now.timestamp(), now.timestamp_subsec_nanos())
}

impl Timestamp {
    #[verifier::type_invariant]
    spec fn inv(self) -> bool {
        valid_timestamp(self.secs, self.nanos)
    }

    /// Whole seconds since the Unix epoch.
    pub closed spec fn seconds(self) -> i64 {
        self.secs
    }

    /// Nanoseconds past the whole second.
    pub closed spec fn subsec_nanos(self) -> u32 {
        self.nanos
    }

    /// The timestamp with the given parts, when they are valid.
    pub fn new(secs: i64, nanos: u32) -> (r: Option<Timestamp>)
        ensures
            r is Some <==> valid_timestamp(secs, nanos),
            r matches Some(t) ==> t.seconds() == secs && t.subsec_nanos() == nanos,
    {
        if MIN_TIMESTAMP_SECS <= secs && secs <= MAX_TIMESTAMP_SECS && nanos < 1_000_000_000 {
            Some(Timestamp { secs, nanos })
        } else {
            None
        }
    }

    /// The current time (`Utc::now`). Which time that is, the clock
    /// decides; the result is a valid timestamp like any other.
    pub fn now() -> (r: Timestamp)
        ensures
            valid_timestamp(r.seconds(), r.subsec_nanos()),
    {
        let (secs, nanos) = current_time();
        Timestamp { secs, nanos }
    }

    /// Whole seconds since the Unix epoch.
    pub fn secs(&self) -> (r: i64)
        ensures
            r == self.seconds(),
    {
        self.secs
    }

    /// Nanoseconds past the whole second.
    pub fn nanos(&self) -> (r: u32)
        ensures
            r == self.subsec_nanos(),
    {
        self.nanos
    }

    /// The RFC 3339 text of the timestamp (`DateTime::to_rfc3339`).
    pub fn to_rfc3339(&self) -> (r: String)
        ensures
            r@ == rfc3339_text(self.seconds(), self.subsec_nanos()),
    {
        proof {
            use_type_invariant(self);
        }
        format_rfc3339(self.secs, self.nanos)
    }
}

} // verus!
