//! Points in time, held as seconds and nanoseconds since the Unix epoch.
//! Reading the clock and writing RFC 3339 text are the `chrono` crate's.

use vstd::prelude::*;

verus! {

/// The first and the last day, counted from the Unix epoch, of the dates that
/// `chrono` represents: January 1 of the year -262143 and December 31 of the
/// year 262142.
pub const FIRST_UNIX_DAY: i64 = -96465292;

pub const LAST_UNIX_DAY: i64 = 95026236;

/// Whether `chrono::DateTime::<Utc>::from_timestamp(secs, nanos)` accepts the
/// pair (returns `Some`): the day of `secs` is one that `chrono` represents,
/// and `nanos` is under a second, or under two seconds in the last second of
/// a minute (a leap second).
pub open spec fn unix_time_valid(secs: i64, nanos: u32) -> bool {
    &&& FIRST_UNIX_DAY <= secs / 86400 <= LAST_UNIX_DAY
    &&& (nanos < 1_000_000_000 || (nanos < 2_000_000_000 && secs % 60 == 59))
}

/// What `to_rfc3339` writes for the instant `(secs, nanos)`.
pub uninterp spec fn rfc3339_text(secs: i64, nanos: u32) -> Seq<char>;

/// `chrono::Utc::now()`, taken apart into seconds and nanoseconds. The clock
/// decides the value; `Utc::now` itself builds it with
/// `DateTime::from_timestamp(..).unwrap()`, so the pair is one that
/// `from_timestamp` accepts.
#[verifier::external_body]
fn clock_now() -> (r: (i64, u32))
    ensures
        unix_time_valid(r.0, r.1),
{
    let now = chrono::Utc::now();
    (now.timestamp(), now.timestamp_subsec_nanos())
}

/// `chrono::DateTime::<Utc>::from_timestamp(secs, nanos).is_some()`.
#[verifier::external_body]
fn unix_time_check(secs: i64, nanos: u32) -> (r: bool)
    ensures
        r == unix_time_valid(secs, nanos),
{
    chrono::DateTime::<chrono::Utc>::from_timestamp(secs, nanos).is_some()
}

/// `chrono::DateTime::<Utc>::to_rfc3339` of the instant `(secs, nanos)`.
#[verifier::external_body]
fn rfc3339_of(secs: i64, nanos: u32) -> (r: String)
    requires
        unix_time_valid(secs, nanos),
    ensures
        r@ == rfc3339_text(secs, nanos),
{
    chrono::DateTime::<chrono::Utc>::from_timestamp(secs, nanos).as_ref().map(
        chrono::DateTime::<chrono::Utc>::to_rfc3339,
    ).unwrap_or_default()
}

/// A UTC instant.
#[derive(Clone, Copy, Debug, PartialEq, Eq)]
pub struct Timestamp {
    secs: i64,
    nanos: u32,
}

impl View for Timestamp {
    type V = (i64, u32);

    closed spec fn view(&self) -> (i64, u32) {
        (self.secs, self.nanos)
    }
}

impl Timestamp {
    #[verifier::type_invariant]
    spec fn valid(self) -> bool {
        unix_time_valid(self.secs, self.nanos)
    }

    /// The current instant.
    pub fn now() -> (t: Self) {
        let (secs, nanos) = clock_now();
        Timestamp { secs, nanos }
    }

    /// The instant `secs` seconds and `nanos` nanoseconds after the epoch,
    /// where `chrono` can represent it.
    pub fn from_unix(secs: i64, nanos: u32) -> (t: Option<Self>)
        ensures
            t is Some <==> unix_time_valid(secs, nanos),
            t matches Some(t) ==> t@ == (secs, nanos),
    {
        if unix_time_check(secs, nanos) {
            Some(Timestamp { secs, nanos })
        } else {
            None
        }
    }

    pub fn secs(&self) -> (s: i64)
        ensures
            s == self@.0,
    {
        self.secs
    }

    pub fn nanos(&self) -> (n: u32)
        ensures
            n == self@.1,
    {
        self.nanos
    }

    /// The RFC 3339 text of the instant.
    pub fn to_rfc3339(&self) -> (text: String)
        ensures
            text@ == rfc3339_text(self@.0, self@.1),
    {
        proof {
            use_type_invariant(self);
        }
        rfc3339_of(self.secs, self.nanos)
    }
}

} // verus!
