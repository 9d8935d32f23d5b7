//! Points in time, counted from the start of 1970 in UTC.
use chrono::TimeZone;
use vstd::prelude::*;

verus! {

/// The first second that a timestamp can name: the start of the year 262144 BCE.
pub const FIRST_SECOND: i64 = -8_334_601_228_800;

/// The last second that a timestamp can name: the end of the year 262142 CE.
pub const LAST_SECOND: i64 = 8_210_266_876_799;

/// A point in time: seconds since the start of 1970 in UTC, and the nanoseconds after that second.
///
/// Nanoseconds from one milliard on stand for a leap second, which can only follow the last
/// second of a minute.
#[derive(Clone, Copy, Debug, PartialEq, Eq, Structural)]
pub struct Timestamp {
    pub seconds: i64,
    pub nanos: u32,
}

/// Whether seconds and nanoseconds name a point in time.
pub open spec fn is_timestamp(seconds: int, nanos: int) -> bool {
    &&& FIRST_SECOND <= seconds <= LAST_SECOND
    &&& 0 <= nanos < 2_000_000_000
    &&& nanos >= 1_000_000_000 ==> seconds % 60 == 59
}

/// The nanoseconds from `earlier` to `later`, negative where `later` comes first.
///
/// A leap second counts where one of the two points lies in it and the other lies on another
/// second of the same run of days; leap seconds between the two are not known here.
pub open spec fn nanos_between(later: Timestamp, earlier: Timestamp) -> int {
    let later_of_day = later.seconds as int % 86_400;
    let earlier_of_day = earlier.seconds as int % 86_400;
    let leap: int = if later_of_day > earlier_of_day && earlier.nanos >= 1_000_000_000 {
        1
    } else if later_of_day < earlier_of_day && later.nanos >= 1_000_000_000 {
        -1
    } else {
        0
    };
    (later.seconds - earlier.seconds + leap) * 1_000_000_000 + later.nanos - earlier.nanos
}

/// A number of nanoseconds in whole seconds, rounded towards zero.
pub open spec fn whole_seconds(nanos: int) -> int {
    if nanos >= 0 {
        nanos / 1_000_000_000
    } else {
        -(-nanos / 1_000_000_000)
    }
}

impl Timestamp {
    /// Whether this names a point in time.
    pub open spec fn valid(self) -> bool {
        is_timestamp(self.seconds as int, self.nanos as int)
    }

    /// Whether this point lies before another.
    pub open spec fn before(self, other: Timestamp) -> bool {
        self.seconds < other.seconds || (self.seconds == other.seconds && self.nanos < other.nanos)
    }

    /// Whether this point lies before another.
    pub fn is_before(&self, other: &Timestamp) -> (r: bool)
        ensures
            r == self.before(*other),
    {
        self.seconds < other.seconds || (self.seconds == other.seconds && self.nanos < other.nanos)
    }

    /// The point in time with the given seconds and nanoseconds, if there is one.
    pub fn new(seconds: i64, nanos: u32) -> (r: Option<Timestamp>)
        ensures
            r == (if is_timestamp(seconds as int, nanos as int) {
                Some(Timestamp { seconds, nanos })
            } else {
                None
            }),
    {
        utc_timestamp(seconds, nanos)
    }

    /// The whole seconds from `earlier` to this point, negative where this one comes first.
    pub fn seconds_since(&self, earlier: &Timestamp) -> (r: i64)
        requires
            self.valid(),
            earlier.valid(),
        ensures
            r == whole_seconds(nanos_between(*self, *earlier)),
    {
        utc_seconds_between(*self, *earlier)
    }
}

/// `chrono::Utc.timestamp_opt`, whose single result is read back by `timestamp` and
/// `timestamp_subsec_nanos`.
///
/// Claimed: there is a result exactly for seconds within the years that chrono can hold, with
/// nanoseconds below one milliard, or below two on the last second of a minute; and the result
/// reads back as the arguments.
#[verifier::external_body]
fn utc_timestamp(seconds: i64, nanos: u32) -> (r: Option<Timestamp>)
    ensures
        r == (if is_timestamp(seconds as int, nanos as int) {
            Some(Timestamp { seconds, nanos })
        } else {
            None
        }),
{
    chrono::Utc.timestamp_opt(seconds, nanos).single().map(
        |at| Timestamp { seconds: at.timestamp(), nanos: at.timestamp_subsec_nanos() },
    )
}

/// `chrono::DateTime::signed_duration_since`, whose result is read by `TimeDelta::num_seconds`.
///
/// Claimed: the whole seconds between two points in time, rounded towards zero. Arguments that
/// name no point in time are left out, since chrono has no value for them.
#[verifier::external_body]
fn utc_seconds_between(later: Timestamp, earlier: Timestamp) -> (r: i64)
    requires
        later.valid(),
        earlier.valid(),
    ensures
        r == whole_seconds(nanos_between(later, earlier)),
{
    let later = chrono::Utc.timestamp_opt(later.seconds, later.nanos).unwrap();
    let earlier = chrono::Utc.timestamp_opt(earlier.seconds, earlier.nanos).unwrap();
    later.signed_duration_since(earlier).num_seconds()
}

/// `chrono::Utc::now`, read by `timestamp` and `timestamp_subsec_nanos`.
///
/// Claimed: the clock of the machine gives a point in time. Which one is left open. A clock before
/// 1970, on which chrono gives up, is not ruled out by anything that a caller hands in.
#[verifier::external_body]
pub(crate) fn utc_now() -> (r: Timestamp)
    ensures
        r.valid(),
{
    let now = chrono::Utc::now();
    Timestamp { seconds: now.timestamp(), nanos: now.timestamp_subsec_nanos() }
}

/// What `DateTime::parse_from_rfc3339` makes of a text: a point in time, or the text of its error.
pub uninterp spec fn rfc3339_time(text: Seq<char>) -> Result<Timestamp, Seq<char>>;

/// `chrono::DateTime::parse_from_rfc3339`, read by `timestamp` and `timestamp_subsec_nanos`.
///
/// Claimed: what comes out depends on the text alone, and is a point in time or an error.
#[verifier::external_body]
fn time_of_rfc3339(text: &str) -> (r: Result<Timestamp, String>)
    ensures
        match rfc3339_time(text@) {
            Ok(at) => r matches Ok(found) && found == at && at.valid(),
            Err(message) => r matches Err(error) && error@ == message,
        },
{
    chrono::DateTime::parse_from_rfc3339(text).map(
        |at| Timestamp { seconds: at.timestamp(), nanos: at.timestamp_subsec_nanos() },
    ).map_err(|error| error.to_string())
}

/// What `DateTime::to_rfc3339` writes for the point in time with the given seconds and
/// nanoseconds.
pub uninterp spec fn rfc3339_text(seconds: i64, nanos: u32) -> Seq<char>;

/// Whether a text is read as a point in time.
pub open spec fn reads_as(text: Seq<char>, at: Timestamp) -> bool {
    rfc3339_time(text) == Ok::<Timestamp, Seq<char>>(at)
}

/// Whether a number of seconds lies in the years that are written with four digits.
pub open spec fn has_four_digit_year(seconds: int) -> bool {
    -62_167_219_200 <= seconds <= 253_402_300_799
}

/// `chrono::DateTime::to_rfc3339`, on the value that `Utc.timestamp_opt` makes.
///
/// Claimed: what is written depends on the point in time alone; and where its year has four
/// digits, `DateTime::parse_from_rfc3339` reads the same point in time back. Arguments that name
/// no point in time are left out, since chrono has no value for them.
#[verifier::external_body]
fn rfc3339_of_time(at: Timestamp) -> (r: String)
    requires
        at.valid(),
    ensures
        r@ == rfc3339_text(at.seconds, at.nanos),
        has_four_digit_year(at.seconds as int) ==> reads_as(r@, at),
{
    chrono::Utc.timestamp_opt(at.seconds, at.nanos).unwrap().to_rfc3339()
}

impl Timestamp {
    /// The point in time that a text in the form of RFC 3339 names.
    pub fn parse(text: &str) -> (r: Result<Timestamp, String>)
        ensures
            match rfc3339_time(text@) {
                Ok(at) => r matches Ok(found) && found == at && at.valid(),
                Err(message) => r matches Err(error) && error@ == message,
            },
    {
        time_of_rfc3339(text)
    }

    /// This point in time in the form of RFC 3339. Read back it is the same point, where its year
    /// has four digits.
    pub fn to_rfc3339(&self) -> (r: String)
        requires
            self.valid(),
        ensures
            r@ == rfc3339_text(self.seconds, self.nanos),
            has_four_digit_year(self.seconds as int) ==> reads_as(r@, *self),
    {
        rfc3339_of_time(*self)
    }
}

} // verus!
