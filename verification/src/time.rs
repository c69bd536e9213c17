use vstd::prelude::*;
use chrono::{DateTime, Datelike, NaiveDate, NaiveDateTime, TimeDelta, Timelike, Utc};
use std::time::{SystemTime, UNIX_EPOCH};

verus! {

/// The first day that a date can have, counted from January 1 of year 1 as day 1.
pub const FIRST_DAY: i32 = -95746129;

/// The last day that a date can have, counted from January 1 of year 1 as day 1.
pub const LAST_DAY: i32 = 95745399;

/// Seconds in a day.
pub const SECONDS_PER_DAY: u32 = 86400;

/// Nanoseconds in a second.
pub const NANOS_PER_SECOND: u32 = 1000000000;

/// The format in which the API writes the creation and update times of a payment.
pub const API_TIME_FORMAT: &'static str = "%Y-%m-%dT%H:%M:%S%.3fZ";

/// The format of a calendar date in the payment list query.
pub const DATE_FORMAT: &'static str = "%Y-%m-%d";

/// Whether day, second of the day and nanosecond make a point in time: the day within
/// the range of dates, the second within the day, and a nanosecond count of a second
/// or more only in the last second of a minute, where it marks a leap second.
pub open spec fn valid_time_parts(day: int, second: int, nano: int) -> bool {
    &&& FIRST_DAY <= day <= LAST_DAY
    &&& 0 <= second < SECONDS_PER_DAY
    &&& 0 <= nano < 2 * NANOS_PER_SECOND
    &&& nano >= NANOS_PER_SECOND ==> second % 60 == 59
}

/// A point in time in UTC, without time zone: a day counted from January 1 of year 1
/// as day 1, the second of that day, and the nanoseconds within that second (a value
/// of a second or more stands for a leap second).
#[derive(Debug, Clone, Copy, PartialEq, Eq, Hash, Structural)]
pub struct Timestamp {
    day: i32,
    second: u32,
    nano: u32,
}

impl View for Timestamp {
    type V = (int, int, int);

    /// Day, second of the day and nanosecond.
    closed spec fn view(&self) -> (int, int, int) {
        (self.day as int, self.second as int, self.nano as int)
    }
}

/// Division that rounds toward zero, for a positive divisor.
pub open spec fn div_toward_zero(a: int, b: int) -> int {
    if a >= 0 {
        a / b
    } else {
        -((-a) / b)
    }
}

/// The nanoseconds from `earlier` to `later`. A leap second counts as part of the
/// second it extends: when the later second is past the earlier one and the earlier
/// time is in a leap second, one second is added; in the mirrored case one is taken.
pub open spec fn elapsed_nanos(later: (int, int, int), earlier: (int, int, int)) -> int {
    let seconds = later.1 - earlier.1;
    let leap = if later.1 > earlier.1 && earlier.2 >= NANOS_PER_SECOND {
        1int
    } else if later.1 < earlier.1 && later.2 >= NANOS_PER_SECOND {
        -1int
    } else {
        0int
    };
    ((later.0 - earlier.0) * SECONDS_PER_DAY + seconds + leap) * NANOS_PER_SECOND + (later.2
        - earlier.2)
}

/// The whole days from `earlier` to `later`, rounded toward zero.
pub open spec fn whole_days_between(later: (int, int, int), earlier: (int, int, int)) -> int {
    div_toward_zero(elapsed_nanos(later, earlier), SECONDS_PER_DAY * NANOS_PER_SECOND)
}

/// What `chrono`'s `NaiveDateTime::parse_from_str` gives for `text` in `format`, as day,
/// second of the day and nanosecond.
pub uninterp spec fn parsed_time_parts(text: Seq<char>, format: Seq<char>) -> Option<(i32, u32, u32)>;

/// The text that `chrono` writes for the date of `day` in `format`.
pub uninterp spec fn formatted_date(day: i32, format: Seq<char>) -> Seq<char>;

/// Calls `chrono::NaiveDateTime::parse_from_str` and takes the point in time apart into
/// day from the common era, second from midnight and nanosecond. Claimed: the result is
/// a function of the two texts, and the parts of a `NaiveDateTime` always form a valid
/// point in time (chrono keeps its dates between its first and last day, its seconds
/// within the day, and its leap-second nanoseconds on the last second of a minute).
#[verifier::external_body]
fn parse_time_parts(text: &str, format: &str) -> (res: Option<(i32, u32, u32)>)
    ensures
        res == parsed_time_parts(text@, format@),
        res matches Some(p) ==> valid_time_parts(p.0 as int, p.1 as int, p.2 as int),
{
    match NaiveDateTime::parse_from_str(text, format) {
        Ok(t) => Some((t.num_days_from_ce(), t.num_seconds_from_midnight(), t.nanosecond())),
        Err(_) => None,
    }
}

/// Reads `std::time::SystemTime::now`, moves `chrono`'s Unix epoch by the clock's
/// offset on either side of it, and takes the UTC time apart into day from the common
/// era, second from midnight and nanosecond; `None` where the clock lies outside
/// chrono's range of dates. Claimed: only that the parts form a valid point in time;
/// which time it is, and whether it is in range, depends on the clock.
#[verifier::external_body]
fn current_time_parts() -> (res: Option<(i32, u32, u32)>)
    ensures
        res matches Some(p) ==> valid_time_parts(p.0 as int, p.1 as int, p.2 as int),
{
    let epoch = DateTime::<Utc>::UNIX_EPOCH;
    let now = match SystemTime::now().duration_since(UNIX_EPOCH) {
        Ok(d) => epoch.checked_add_signed(TimeDelta::from_std(d).ok()?),
        Err(e) => epoch.checked_sub_signed(TimeDelta::from_std(e.duration()).ok()?),
    }?.naive_utc();
    Some((now.num_days_from_ce(), now.num_seconds_from_midnight(), now.nanosecond()))
}

/// Calls `chrono::NaiveDate::from_num_days_from_ce_opt` and formats the date with
/// `format`. Claimed: the text is a function of the day and the format. The day must
/// lie in chrono's range of dates, and the format is the calendar-date format, which
/// formats every date.
#[verifier::external_body]
fn format_date(day: i32, format: &str) -> (res: String)
    requires
        FIRST_DAY <= day <= LAST_DAY,
        format@ == DATE_FORMAT@,
    ensures
        res@ == formatted_date(day, format@),
{
    NaiveDate::from_num_days_from_ce_opt(day).expect("the day lies in chrono's range").format(
        format,
    ).to_string()
}

/// No whole day lies between a point in time and itself.
pub proof fn lemma_days_between_self(t: (int, int, int))
    ensures
        whole_days_between(t, t) == 0,
{
}

/// Counting the days from `a` to `b` gives the negated count from `b` to `a`.
pub proof fn lemma_days_between_antisymmetric(a: (int, int, int), b: (int, int, int))
    ensures
        whole_days_between(a, b) == -whole_days_between(b, a),
{
    assert(elapsed_nanos(a, b) == -elapsed_nanos(b, a));
}

/// Chrono's order of points in time: by day, then by second of the day, then by
/// nanosecond.
pub open spec fn time_le(a: (int, int, int), b: (int, int, int)) -> bool {
    a.0 < b.0 || (a.0 == b.0 && (a.1 < b.1 || (a.1 == b.1 && a.2 <= b.2)))
}

/// The whole days since a fixed point in time never decrease as time goes on from a
/// reading outside a leap second. From a reading inside a leap second they can: from
/// 00:00:00.5 of one day, chrono counts one whole day at 23:59:60.5 of that day but
/// none at 00:00:00 of the next.
pub proof fn lemma_days_between_monotone(c: (int, int, int), a: (int, int, int), b: (int, int, int))
    requires
        valid_time_parts(c.0, c.1, c.2),
        valid_time_parts(a.0, a.1, a.2),
        valid_time_parts(b.0, b.1, b.2),
        time_le(a, b),
        a.2 < NANOS_PER_SECOND,
    ensures
        whole_days_between(a, c) <= whole_days_between(b, c),
{
    let d = SECONDS_PER_DAY * NANOS_PER_SECOND;
    let x = elapsed_nanos(a, c);
    let y = elapsed_nanos(b, c);
    let k = a.0 - c.0;
    if x <= y {
        lemma_div_toward_zero_monotone(x, y, d);
    } else if x < k * d {
        lemma_div_toward_zero_same_bucket(x, y, k - 1);
    } else {
        lemma_div_toward_zero_same_bucket(x, y, k);
    }
}

/// Rounding toward zero keeps the order of the numbers it divides.
proof fn lemma_div_toward_zero_monotone(x: int, y: int, d: int)
    requires
        x <= y,
        d > 0,
    ensures
        div_toward_zero(x, d) <= div_toward_zero(y, d),
{
    if x >= 0 {
        assert(x / d <= y / d) by (nonlinear_arith)
            requires
                0 <= x <= y,
                d > 0,
        ;
    } else if y >= 0 {
        assert(y / d >= 0) by (nonlinear_arith)
            requires
                0 <= y,
                d > 0,
        ;
    } else {
        assert((-y) / d <= (-x) / d) by (nonlinear_arith)
            requires
                0 < -y <= -x,
                d > 0,
        ;
    }
}

/// Two numbers strictly between the same two neighbouring multiples of a day's
/// nanoseconds round to the same number of whole days.
proof fn lemma_div_toward_zero_same_bucket(x: int, y: int, m: int)
    requires
        m * 86400000000000 < x < (m + 1) * 86400000000000,
        m * 86400000000000 < y < (m + 1) * 86400000000000,
    ensures
        div_toward_zero(x, 86400000000000) == div_toward_zero(y, 86400000000000),
{
}

impl Timestamp {
    /// The parts always form a point in time.
    #[verifier::type_invariant]
    spec fn valid(self) -> bool {
        valid_time_parts(self.day as int, self.second as int, self.nano as int)
    }

    /// Makes a point in time of day, second of the day and nanosecond; `None` where they
    /// do not form one.
    pub fn from_parts(day: i32, second: u32, nano: u32) -> (res: Option<Timestamp>)
        ensures
            res is Some <==> valid_time_parts(day as int, second as int, nano as int),
            res matches Some(t) ==> t@ == (day as int, second as int, nano as int),
    {
        if FIRST_DAY <= day && day <= LAST_DAY && second < SECONDS_PER_DAY && nano < 2
            * NANOS_PER_SECOND && (nano < NANOS_PER_SECOND || second % 60 == 59) {
            Some(Timestamp { day, second, nano })
        } else {
            None
        }
    }

    /// Reads a time as the API writes it (`2026-01-10T17:56:15.327Z`); `None` where
    /// `chrono` does not read it in that format.
    pub fn parse(text: &str) -> (res: Option<Timestamp>)
        ensures
            (match parsed_time_parts(text@, API_TIME_FORMAT@) {
                Some(p) => res matches Some(t) && t@ == (p.0 as int, p.1 as int, p.2 as int),
                None => res is None,
            }),
            res matches Some(t) ==> valid_time_parts(t@.0, t@.1, t@.2),
    {
        match parse_time_parts(text, API_TIME_FORMAT) {
            Some(p) => Timestamp::from_parts(p.0, p.1, p.2),
            None => None,
        }
    }

    /// The current UTC time; `None` where the system clock lies outside the range of
    /// dates.
    pub fn now() -> (res: Option<Timestamp>)
        ensures
            res matches Some(t) ==> valid_time_parts(t@.0, t@.1, t@.2),
    {
        match current_time_parts() {
            Some(p) => Timestamp::from_parts(p.0, p.1, p.2),
            None => None,
        }
    }

    /// The whole days from `earlier` to `self`, rounded toward zero, as `chrono`'s
    /// difference of two `NaiveDateTime`s counts them with `num_days`.
    pub fn days_since(&self, earlier: &Timestamp) -> (res: i64)
        ensures
            res == whole_days_between(self@, earlier@),
    {
        proof {
            use_type_invariant(self);
            use_type_invariant(earlier);
        }
        let day_diff: i128 = self.day as i128 - earlier.day as i128;
        let mut seconds: i128 = self.second as i128 - earlier.second as i128;
        if self.second > earlier.second && earlier.nano >= NANOS_PER_SECOND {
            seconds = seconds + 1;
        } else if self.second < earlier.second && self.nano >= NANOS_PER_SECOND {
            seconds = seconds - 1;
        }
        let total: i128 = (day_diff * 86400 + seconds) * 1000000000 + (self.nano as i128
            - earlier.nano as i128);
        assert(total == elapsed_nanos(self@, earlier@));
        let per_day: i128 = 86400000000000;
        let magnitude: i128 = if total >= 0 {
            total
        } else {
            -total
        };
        assert(magnitude <= 200000000 * per_day);
        let quotient: i128 = magnitude / per_day;
        assert(quotient <= 200000000) by (nonlinear_arith)
            requires
                0 <= magnitude <= 200000000 * per_day,
                per_day == 86400000000000i128,
                quotient == magnitude / per_day,
        ;
        let days: i128 = if total >= 0 {
            quotient
        } else {
            -quotient
        };
        days as i64
    }

    /// Day from the common era, second of the day and nanosecond.
    pub fn parts(&self) -> (res: (i32, u32, u32))
        ensures
            (res.0 as int, res.1 as int, res.2 as int) == self@,
            valid_time_parts(res.0 as int, res.1 as int, res.2 as int),
    {
        proof {
            use_type_invariant(self);
        }
        (self.day, self.second, self.nano)
    }

    /// The calendar date of this time as `YYYY-MM-DD`, as `chrono` formats it.
    pub fn date_text(&self) -> (res: String)
        ensures
            res@ == formatted_date(self@.0 as i32, DATE_FORMAT@),
    {
        proof {
            use_type_invariant(self);
        }
        format_date(self.day, DATE_FORMAT)
    }
}

} // verus!
