//! Points in time, read from and written to human formats by `chrono`.

use vstd::prelude::*;

verus! {

/// A UTC instant as contracts speak of it: whole seconds since 1970-01-01
/// 00:00:00 UTC, not counting leap seconds, and the nanoseconds since the
/// start of that second. During a leap second the seconds stay on `:59` and
/// the nanoseconds run from one thousand million upwards.
pub struct Instant {
    pub seconds: int,
    pub subsec_nanos: int,
}

/// The first day that `chrono` can hold, 1 January of the year -262143,
/// counted from 1970-01-01.
pub open spec fn first_day() -> int {
    -96_465_292
}

/// The last day that `chrono` can hold, 31 December of the year 262142,
/// counted from 1970-01-01.
pub open spec fn last_day() -> int {
    95_026_236
}

impl Instant {
    /// Whether `chrono` can hold the instant.
    pub open spec fn representable(self) -> bool {
        &&& first_day() <= self.seconds / 86_400 <= last_day()
        &&& 0 <= self.subsec_nanos < 2_000_000_000
        &&& (self.subsec_nanos >= 1_000_000_000 ==> self.seconds % 60 == 59)
    }

    /// Midnight at the start of the day `days` after 1970-01-01.
    pub open spec fn midnight(days: int) -> Instant {
        Instant { seconds: days * 86_400, subsec_nanos: 0 }
    }

    /// Chronological order.
    pub open spec fn before(self, other: Instant) -> bool {
        self.seconds < other.seconds || (self.seconds == other.seconds && self.subsec_nanos
            < other.subsec_nanos)
    }
}

/// The format with seconds.
pub open spec fn full_format() -> Seq<char> {
    "%Y-%m-%d %H:%M:%S"@
}

/// The format without seconds.
pub open spec fn minute_format() -> Seq<char> {
    "%Y-%m-%d %H:%M"@
}

/// The format of a date alone.
pub open spec fn date_format() -> Seq<char> {
    "%Y-%m-%d"@
}

/// The date and time that `chrono` reads from `text` under `format`, `None`
/// where it rejects the text.
pub uninterp spec fn chrono_datetime(text: Seq<char>, format: Seq<char>) -> Option<Instant>;

/// The date that `chrono` reads from `text` under `format`, in days since
/// 1970-01-01; `None` where it rejects the text.
pub uninterp spec fn chrono_date(text: Seq<char>, format: Seq<char>) -> Option<int>;

/// How `chrono` writes an instant under `format`.
pub uninterp spec fn chrono_text(instant: Instant, format: Seq<char>) -> Seq<char>;

/// The instant that a human-entered text stands for. The formats are tried in
/// order: date and time with seconds, date and time without seconds, date
/// alone; the first that fits decides.
pub open spec fn human_instant(text: Seq<char>) -> Option<Instant> {
    if chrono_datetime(text, full_format()) is Some {
        chrono_datetime(text, full_format())
    } else if chrono_datetime(text, minute_format()) is Some {
        chrono_datetime(text, minute_format())
    } else if let Some(days) = chrono_date(text, date_format()) {
        Some(Instant::midnight(days))
    } else {
        None
    }
}

/// `TryFrom` alternative for conversions from human formats.
pub trait TryFromHuman: Sized {
    type Error;

    fn try_from_human(string: &str) -> Result<Self, Self::Error>;
}

/// `Into` alternative for conversion into human readable format.
pub trait IntoHuman {
    fn into_human(self) -> String;
}

/// A text that is in none of the accepted date formats.
#[derive(Debug)]
pub struct InvalidDateFormat {
    pub text: String,
}

/// A UTC instant.
///
/// Human formats give it to the second. A leap second, written `:60`, is
/// kept apart from the second before it: it comes after that second and
/// before the next minute, and is written as `:60` again.
#[derive(Clone, Copy, Debug, PartialEq, Eq)]
pub struct TimePoint {
    seconds: i64,
    subsec_nanos: u32,
}

impl View for TimePoint {
    type V = Instant;

    closed spec fn view(&self) -> Instant {
        Instant { seconds: self.seconds as int, subsec_nanos: self.subsec_nanos as int }
    }
}

impl TimePoint {
    #[verifier::type_invariant]
    spec fn well_formed(self) -> bool {
        self@.representable()
    }

    /// The instant `seconds` after 1970-01-01 00:00:00 UTC, if `chrono` can
    /// hold it.
    pub fn from_timestamp(seconds: i64, subsec_nanos: u32) -> (result: Option<TimePoint>)
        ensures
            match result {
                Some(t) => t@ == (Instant { seconds: seconds as int, subsec_nanos: subsec_nanos as int })
                    && t@.representable(),
                None => !(Instant { seconds: seconds as int, subsec_nanos: subsec_nanos as int }).representable(),
            },
    {
        if seconds < -8_334_601_228_800 || seconds > 8_210_266_876_799 {
            return None;
        }
        if subsec_nanos >= 2_000_000_000 {
            return None;
        }
        let shifted: u64 = (seconds + 8_334_601_228_800) as u64;
        if subsec_nanos >= 1_000_000_000 && shifted % 60 != 59 {
            return None;
        }
        Some(TimePoint { seconds, subsec_nanos })
    }

    /// Seconds since 1970-01-01 00:00:00 UTC, not counting leap seconds.
    pub fn timestamp(&self) -> (result: i64)
        ensures
            result == self@.seconds,
            self@.representable(),
    {
        proof {
            use_type_invariant(self);
        }
        self.seconds
    }

    /// Nanoseconds since the start of the second; one thousand million or
    /// more during a leap second.
    pub fn timestamp_subsec_nanos(&self) -> (result: u32)
        ensures
            result == self@.subsec_nanos,
            self@.representable(),
    {
        proof {
            use_type_invariant(self);
        }
        self.subsec_nanos
    }

    /// Whether this instant comes strictly before `other`.
    pub fn is_before(&self, other: &TimePoint) -> (result: bool)
        ensures
            result == self@.before(other@),
    {
        self.seconds < other.seconds || (self.seconds == other.seconds && self.subsec_nanos
            < other.subsec_nanos)
    }
}

impl TryFromHuman for TimePoint {
    type Error = InvalidDateFormat;

    /// Reads `YYYY-MM-DD HH:MM:SS`, `YYYY-MM-DD HH:MM` or `YYYY-MM-DD` as a
    /// UTC instant; a missing time of day is midnight, missing seconds are
    /// zero. A text in none of these formats is rejected, and the error
    /// carries the text.
    fn try_from_human(string: &str) -> (result: Result<TimePoint, InvalidDateFormat>)
        ensures
            match result {
                Ok(t) => human_instant(string@) == Some(t@),
                Err(e) => human_instant(string@) is None && e.text@ == string@,
            },
    {
        if let Some((seconds, subsec_nanos)) = parse_datetime(string, "%Y-%m-%d %H:%M:%S") {
            return Ok(TimePoint { seconds, subsec_nanos });
        }
        if let Some((seconds, subsec_nanos)) = parse_datetime(string, "%Y-%m-%d %H:%M") {
            return Ok(TimePoint { seconds, subsec_nanos });
        }
        if let Some(days) = parse_date(string, "%Y-%m-%d") {
            let seconds: i64 = (days as i64) * 86_400;
            return Ok(TimePoint { seconds, subsec_nanos: 0 });
        }
        Err(InvalidDateFormat { text: string.to_owned() })
    }
}

impl IntoHuman for TimePoint {
    /// Writes the instant as `YYYY-MM-DD HH:MM:SS`.
    fn into_human(self) -> (result: String)
        ensures
            result@ == chrono_text(self@, full_format()),
    {
        proof {
            use_type_invariant(&self);
        }
        format_instant(self.seconds, self.subsec_nanos, "%Y-%m-%d %H:%M:%S")
    }
}

/// A day of the calendar, without a time of day.
#[derive(Clone, Copy, Debug, PartialEq, Eq)]
pub struct CalendarDate {
    days: i32,
}

impl View for CalendarDate {
    type V = int;

    /// The number of days since 1970-01-01.
    closed spec fn view(&self) -> int {
        self.days as int
    }
}

impl CalendarDate {
    #[verifier::type_invariant]
    spec fn well_formed(self) -> bool {
        first_day() <= self@ <= last_day()
    }

    /// The number of days since 1970-01-01.
    pub fn epoch_days(&self) -> (result: i32)
        ensures
            result == self@,
            first_day() <= self@ <= last_day(),
    {
        proof {
            use_type_invariant(self);
        }
        self.days
    }

    /// Whether this day comes strictly before `other`.
    pub fn is_before(&self, other: &CalendarDate) -> (result: bool)
        ensures
            result == (self@ < other@),
    {
        self.days < other.days
    }

    /// The instant `second_of_day` seconds after this day's midnight; `None`
    /// where the day has no such second.
    pub fn and_second_of_day(&self, second_of_day: u32) -> (result: Option<TimePoint>)
        ensures
            match result {
                Some(t) => second_of_day < 86_400 && t@ == (Instant {
                    seconds: self@ * 86_400 + second_of_day,
                    subsec_nanos: 0,
                }),
                None => second_of_day >= 86_400,
            },
    {
        proof {
            use_type_invariant(self);
        }
        if second_of_day >= 86_400 {
            return None;
        }
        let seconds: i64 = (self.days as i64) * 86_400 + (second_of_day as i64);
        Some(TimePoint { seconds, subsec_nanos: 0 })
    }

    /// The day after this one; `None` after the last day of the calendar.
    pub fn next_day(&self) -> (result: Option<CalendarDate>)
        ensures
            match result {
                Some(next) => next@ == self@ + 1,
                None => self@ == last_day(),
            },
    {
        proof {
            use_type_invariant(self);
        }
        if self.days >= 95_026_236 {
            None
        } else {
            Some(CalendarDate { days: self.days + 1 })
        }
    }
}

impl TryFromHuman for CalendarDate {
    type Error = InvalidDateFormat;

    /// Reads `YYYY-MM-DD`. Any other text is rejected, and the error carries
    /// the text.
    fn try_from_human(string: &str) -> (result: Result<CalendarDate, InvalidDateFormat>)
        ensures
            match result {
                Ok(date) => chrono_date(string@, date_format()) == Some(date@),
                Err(e) => chrono_date(string@, date_format()) is None && e.text@ == string@,
            },
    {
        match parse_date(string, "%Y-%m-%d") {
            Some(days) => Ok(CalendarDate { days }),
            None => Err(InvalidDateFormat { text: string.to_owned() }),
        }
    }
}

/// `chrono::NaiveDateTime::parse_from_str`: the date and time that the crate
/// reads, as the UTC timestamp and the nanoseconds that `chrono::DateTime`
/// reports for it; `None` where the crate returns an error. Every date and
/// time that `chrono` holds lies between its first and last day.
#[verifier::external_body]
fn parse_datetime(text: &str, format: &str) -> (result: Option<(i64, u32)>)
    ensures
        match result {
            Some((seconds, nanos)) => {
                let instant = Instant { seconds: seconds as int, subsec_nanos: nanos as int };
                chrono_datetime(text@, format@) == Some(instant) && instant.representable()
            },
            None => chrono_datetime(text@, format@) is None,
        },
{
    chrono::NaiveDateTime::parse_from_str(text, format).ok().map(
        |t| (t.and_utc().timestamp(), t.and_utc().timestamp_subsec_nanos()),
    )
}

/// `chrono::NaiveDate::parse_from_str`: the date that the crate reads, as
/// `chrono::NaiveDate::to_epoch_days` counts it; `None` where the crate
/// returns an error. Every date that `chrono` holds lies between its first
/// and last day.
#[verifier::external_body]
fn parse_date(text: &str, format: &str) -> (result: Option<i32>)
    ensures
        match result {
            Some(days) => chrono_date(text@, format@) == Some(days as int) && first_day() <= days
                <= last_day(),
            None => chrono_date(text@, format@) is None,
        },
{
    chrono::NaiveDate::parse_from_str(text, format).ok().map(|d| d.to_epoch_days())
}

/// `chrono::NaiveDateTime::format`, on the instant that
/// `chrono::DateTime::from_timestamp` makes of the two numbers: the text that
/// the crate writes under `format`.
#[verifier::external_body]
fn format_instant(seconds: i64, subsec_nanos: u32, format: &str) -> (result: String)
    requires
        (Instant { seconds: seconds as int, subsec_nanos: subsec_nanos as int }).representable(),
        format@ == full_format(),
    ensures
        result@ == chrono_text(
            Instant { seconds: seconds as int, subsec_nanos: subsec_nanos as int },
            format@,
        ),
{
    chrono::DateTime::from_timestamp(seconds, subsec_nanos).unwrap().naive_utc().format(
        format,
    ).to_string()
}

} // verus!
