//! Instants in UTC and signed spans of time between them.
//!
//! An instant is held as plain numbers; the difference of two instants is
//! computed by `chrono`, everything after it by the code of this module.

use vstd::prelude::*;

verus! {

/// Nanoseconds in one second.
pub const NANOS_PER_SECOND: i64 = 1_000_000_000;

/// Seconds in one minute.
pub const SECONDS_PER_MINUTE: i64 = 60;

/// Seconds in one hour.
pub const SECONDS_PER_HOUR: i64 = 3_600;

/// Seconds in one day without a leap second.
pub const SECONDS_PER_DAY: i64 = 86_400;

/// The first second that an instant can name: midnight of January 1 of the
/// year -262143.
pub const EARLIEST_SECOND: i64 = -8_334_601_228_800;

/// The last second that an instant can name: the end of December 31 of the
/// year 262142.
pub const LATEST_SECOND: i64 = 8_210_266_876_799;

/// The largest number of whole seconds, in either direction, that a span holds.
pub const SPAN_LIMIT_SECONDS: i64 = 9_223_372_036_854_775;

/// The largest number of days, in either direction, that `Span::days` accepts.
pub const SPAN_LIMIT_DAYS: i64 = 106_751_991_167;

/// The quotient of `a` by a positive `b`, rounded toward zero.
pub open spec fn truncated_quotient(a: int, b: int) -> int {
    if a >= 0 {
        a / b
    } else {
        -((-a) / b)
    }
}

/// The remainder that goes with `truncated_quotient`: zero, or of the sign of `a`.
pub open spec fn truncated_remainder(a: int, b: int) -> int {
    a - b * truncated_quotient(a, b)
}

/// What a `Timestamp` stands for.
///
/// `seconds` counts the seconds since 1970-01-01 00:00:00 UTC, leap seconds
/// left out. `nanos` is the part of a second after it; a value of a thousand
/// million or more says that the instant lies in a leap second that follows
/// second 59 of a minute.
pub struct Instant {
    pub seconds: int,
    pub nanos: int,
}

/// The instant `nanos` nanoseconds after second `seconds`.
pub open spec fn instant_at(seconds: int, nanos: int) -> Instant {
    Instant { seconds, nanos }
}

/// The instants that a `Timestamp` can hold.
pub open spec fn valid_instant(at: Instant) -> bool {
    &&& EARLIEST_SECOND <= at.seconds <= LATEST_SECOND
    &&& 0 <= at.nanos < 2 * NANOS_PER_SECOND
    &&& (at.nanos >= NANOS_PER_SECOND ==> at.seconds % 60 == 59)
}

/// The second of its day in which an instant lies.
pub open spec fn second_of_day(at: Instant) -> int {
    at.seconds % (SECONDS_PER_DAY as int)
}

/// The second that a leap second adds to, or takes from, the difference of
/// two instants. It counts only where the two lie at different seconds of
/// their days, and then for the one that lies at the earlier second of its day.
pub open spec fn leap_adjustment(later: Instant, earlier: Instant) -> int {
    if second_of_day(later) > second_of_day(earlier) && earlier.nanos >= NANOS_PER_SECOND {
        1
    } else if second_of_day(later) < second_of_day(earlier) && later.nanos >= NANOS_PER_SECOND {
        -1
    } else {
        0
    }
}

/// The nanoseconds from `earlier` to `later`; negative where `later` comes first.
pub open spec fn elapsed_nanos(later: Instant, earlier: Instant) -> int {
    (later.seconds - earlier.seconds + leap_adjustment(later, earlier)) * NANOS_PER_SECOND + (
    later.nanos - earlier.nanos)
}

/// The spans that a `Span` can hold, in nanoseconds.
pub open spec fn valid_span(nanos: int) -> bool {
    -(SPAN_LIMIT_SECONDS + 1) * NANOS_PER_SECOND < nanos < (SPAN_LIMIT_SECONDS + 1)
        * NANOS_PER_SECOND
}

/// The nanoseconds in a number of days.
pub open spec fn nanos_of_days(days: int) -> int {
    days * SECONDS_PER_DAY * NANOS_PER_SECOND
}

/// Between two valid instants lie fewer than seventeen million million seconds.
pub proof fn lemma_elapsed_bounded(later: Instant, earlier: Instant)
    requires
        valid_instant(later),
        valid_instant(earlier),
    ensures
        -16_544_868_105_602 * NANOS_PER_SECOND < elapsed_nanos(later, earlier)
            < 16_544_868_105_602 * NANOS_PER_SECOND,
        valid_span(elapsed_nanos(later, earlier)),
        valid_span(elapsed_nanos(later, earlier) + nanos_of_days(1)),
{
}

/// An absolute instant in UTC, to the nanosecond.
#[derive(Clone, Copy, Debug, PartialEq, Eq)]
pub struct Timestamp {
    seconds: i64,
    nanos: u32,
}

impl View for Timestamp {
    type V = Instant;

    closed spec fn view(&self) -> Instant {
        Instant { seconds: self.seconds as int, nanos: self.nanos as int }
    }
}

/// A signed span of time, to the nanosecond. The whole seconds and the
/// nanoseconds beside them never differ in sign.
#[derive(Clone, Copy, Debug, PartialEq, Eq)]
pub struct Span {
    seconds: i64,
    nanos: i32,
}

impl View for Span {
    type V = int;

    /// The span in nanoseconds.
    closed spec fn view(&self) -> int {
        self.seconds * NANOS_PER_SECOND + self.nanos
    }
}

/// Subtracts two UTC date-times with `chrono`: each side is built by
/// `DateTime::from_timestamp`, the difference is taken by `DateTime`'s `-`
/// (its `signed_duration_since`), and read off with `TimeDelta::num_seconds`
/// and `TimeDelta::subsec_nanos`.
///
/// Trusted: the difference is `elapsed_nanos` of the two instants, handed
/// back as whole seconds rounded toward zero and the nanoseconds left over.
/// `chrono` adds the difference of the days, that of the seconds of the day
/// with one second more or less for a leap second, and that of the
/// nanoseconds; the first two together are the difference of the two counts
/// of seconds. For the instants that the `requires` admits `from_timestamp`
/// gives a date-time, and the difference lies within `TimeDelta`'s range.
#[verifier::external_body]
fn chrono_elapsed(later: &Timestamp, earlier: &Timestamp) -> (parts: (i64, i32))
    requires
        valid_instant(later@),
        valid_instant(earlier@),
    ensures
        parts.0 == truncated_quotient(elapsed_nanos(later@, earlier@), NANOS_PER_SECOND as int),
        parts.1 == truncated_remainder(elapsed_nanos(later@, earlier@), NANOS_PER_SECOND as int),
{
    let later = chrono::DateTime::from_timestamp(later.seconds, later.nanos).unwrap();
    let earlier = chrono::DateTime::from_timestamp(earlier.seconds, earlier.nanos).unwrap();
    let delta = later - earlier;
    (delta.num_seconds(), delta.subsec_nanos())
}

/// What `chrono` reads out of `text` under the strftime pattern `format`:
/// the seconds since the Unix epoch and the nanoseconds beside them of the
/// date and time that the text names, taken as UTC; `None` where the text
/// does not match the pattern or names no date and time.
pub uninterp spec fn parsed_datetime(text: Seq<char>, format: Seq<char>) -> Option<(i64, u32)>;

/// Parses a date and time with `chrono`'s `NaiveDateTime::parse_from_str`
/// and reads the result, taken as UTC, with `DateTime::timestamp` and
/// `DateTime::timestamp_subsec_nanos`.
///
/// Trusted: the result depends on the two texts alone. Nothing is claimed of
/// which texts are accepted.
#[verifier::external_body]
fn chrono_parse(text: &str, format: &str) -> (parsed: Option<(i64, u32)>)
    ensures
        parsed == parsed_datetime(text@, format@),
{
    match chrono::NaiveDateTime::parse_from_str(text, format) {
        Ok(naive) => Some((naive.and_utc().timestamp(), naive.and_utc().timestamp_subsec_nanos())),
        Err(_) => None,
    }
}

/// The instant that a parsed pair of numbers names, if it names a valid one.
pub open spec fn instant_of_parsed(parsed: Option<(i64, u32)>) -> Option<Instant> {
    match parsed {
        Some((seconds, nanos)) => {
            let at = instant_at(seconds as int, nanos as int);
            if valid_instant(at) {
                Some(at)
            } else {
                None
            }
        },
        None => None,
    }
}

/// The instant that `text` names under the strftime pattern `format`.
pub open spec fn instant_of_text(text: Seq<char>, format: Seq<char>) -> Option<Instant> {
    instant_of_parsed(parsed_datetime(text, format))
}

/// The view of a timestamp that may be missing.
pub open spec fn view_of(at: Option<Timestamp>) -> Option<Instant> {
    match at {
        Some(t) => Some(t@),
        None => None,
    }
}

impl Timestamp {
    #[verifier::type_invariant]
    spec fn inv(self) -> bool {
        valid_instant(self@)
    }

    /// The instant `nanos` nanoseconds after second `seconds` of the Unix
    /// epoch, or `None` where the two name no valid instant.
    pub fn new(seconds: i64, nanos: u32) -> (made: Option<Timestamp>)
        ensures
            made is Some <==> valid_instant(instant_at(seconds as int, nanos as int)),
            made matches Some(t) ==> t@ == instant_at(seconds as int, nanos as int),
    {
        if seconds < EARLIEST_SECOND || seconds > LATEST_SECOND || nanos >= 2_000_000_000 {
            return None;
        }
        if nanos >= 1_000_000_000 {
            let rest: i64 = seconds % 60;
            let second_of_minute: i64 = if rest < 0 {
                rest + 60
            } else {
                rest
            };
            assert(second_of_minute == (seconds as int) % 60);
            if second_of_minute != 59 {
                return None;
            }
        }
        Some(Timestamp { seconds, nanos })
    }

    /// The timestamp of a parsed pair of seconds and nanoseconds; `None`
    /// where nothing was parsed or the pair names no valid instant.
    pub fn from_parsed(parsed: Option<(i64, u32)>) -> (made: Option<Timestamp>)
        ensures
            view_of(made) == instant_of_parsed(parsed),
    {
        match parsed {
            Some((seconds, nanos)) => Timestamp::new(seconds, nanos),
            None => None,
        }
    }

    /// Reads a date and time, taken as UTC, out of `text` under the strftime
    /// pattern `format`.
    pub fn parse(text: &str, format: &str) -> (made: Option<Timestamp>)
        ensures
            view_of(made) == instant_of_text(text@, format@),
    {
        Timestamp::from_parsed(chrono_parse(text, format))
    }

    /// Seconds since the Unix epoch, leap seconds left out.
    pub fn seconds(&self) -> (s: i64)
        ensures
            s == self@.seconds,
    {
        self.seconds
    }

    /// Nanoseconds after the whole second.
    pub fn subsec_nanos(&self) -> (n: u32)
        ensures
            n == self@.nanos,
    {
        self.nanos
    }

    /// The span from `earlier` to this instant; negative where this one comes
    /// first. Both instants are valid, as every timestamp is.
    pub fn since(&self, earlier: &Timestamp) -> (span: Span)
        ensures
            span@ == elapsed_nanos(self@, earlier@),
            valid_instant(self@),
            valid_instant(earlier@),
    {
        proof {
            use_type_invariant(self);
            use_type_invariant(earlier);
            lemma_elapsed_bounded(self@, earlier@);
        }
        let parts = chrono_elapsed(self, earlier);
        Span { seconds: parts.0, nanos: parts.1 }
    }
}

impl Span {
    #[verifier::type_invariant]
    spec fn inv(self) -> bool {
        &&& -SPAN_LIMIT_SECONDS <= self.seconds <= SPAN_LIMIT_SECONDS
        &&& -NANOS_PER_SECOND < self.nanos < NANOS_PER_SECOND
        &&& (self.seconds > 0 ==> self.nanos >= 0)
        &&& (self.seconds < 0 ==> self.nanos <= 0)
    }

    /// The span of `days` days of 86 400 seconds, or `None` where that is
    /// more than a span holds.
    pub fn days(days: i64) -> (made: Option<Span>)
        ensures
            made is Some <==> -SPAN_LIMIT_DAYS <= days <= SPAN_LIMIT_DAYS,
            made matches Some(span) ==> span@ == nanos_of_days(days as int),
    {
        if days < -SPAN_LIMIT_DAYS || days > SPAN_LIMIT_DAYS {
            return None;
        }
        Some(Span { seconds: days * SECONDS_PER_DAY, nanos: 0 })
    }

    /// The sum of two spans, or `None` where it is more than a span holds.
    pub fn checked_add(&self, other: &Span) -> (sum: Option<Span>)
        ensures
            sum is Some <==> valid_span(self@ + other@),
            sum matches Some(span) ==> span@ == self@ + other@,
    {
        proof {
            use_type_invariant(self);
            use_type_invariant(other);
        }
        let mut seconds: i64 = self.seconds + other.seconds;
        let mut nanos: i64 = self.nanos as i64 + other.nanos as i64;
        if nanos >= NANOS_PER_SECOND {
            nanos = nanos - NANOS_PER_SECOND;
            seconds = seconds + 1;
        } else if nanos <= -NANOS_PER_SECOND {
            nanos = nanos + NANOS_PER_SECOND;
            seconds = seconds - 1;
        }
        if seconds > 0 && nanos < 0 {
            nanos = nanos + NANOS_PER_SECOND;
            seconds = seconds - 1;
        } else if seconds < 0 && nanos > 0 {
            nanos = nanos - NANOS_PER_SECOND;
            seconds = seconds + 1;
        }
        if seconds < -SPAN_LIMIT_SECONDS || seconds > SPAN_LIMIT_SECONDS {
            return None;
        }
        Some(Span { seconds, nanos: nanos as i32 })
    }

    /// The whole seconds in the span, rounded toward zero.
    pub fn num_seconds(&self) -> (n: i64)
        ensures
            n == truncated_quotient(self@, NANOS_PER_SECOND as int),
    {
        proof {
            use_type_invariant(self);
        }
        self.seconds
    }

    /// The whole minutes in the span, rounded toward zero.
    pub fn num_minutes(&self) -> (n: i64)
        ensures
            n == truncated_quotient(
                truncated_quotient(self@, NANOS_PER_SECOND as int),
                SECONDS_PER_MINUTE as int,
            ),
    {
        self.num_seconds() / SECONDS_PER_MINUTE
    }

    /// The whole hours in the span, rounded toward zero.
    pub fn num_hours(&self) -> (n: i64)
        ensures
            n == truncated_quotient(
                truncated_quotient(self@, NANOS_PER_SECOND as int),
                SECONDS_PER_HOUR as int,
            ),
    {
        self.num_seconds() / SECONDS_PER_HOUR
    }

    /// The nanoseconds beside the whole seconds: zero, or of the sign of the span.
    pub fn subsec_nanos(&self) -> (n: i32)
        ensures
            n == truncated_remainder(self@, NANOS_PER_SECOND as int),
    {
        proof {
            use_type_invariant(self);
        }
        self.nanos
    }
}

} // verus!
