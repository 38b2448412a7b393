//! Modification times: the UTC calendar day and the minute stamp of a Unix
//! timestamp, and the date bounds of a search.
//!
//! A calendar day is held as the number of days since 1970-01-01, so that days
//! compare as integers. The calendar itself is `chrono`'s: the three functions
//! at the end of this file call it, and their contracts are taken on trust.
use vstd::prelude::*;

verus! {

/// The number of seconds in a day.
pub const SECONDS_PER_DAY: i64 = 86_400;

/// The first day that the calendar can hold, as days since 1970-01-01:
/// January 1st of the year -262143.
pub const MIN_EPOCH_DAY: i32 = -96_465_292;

/// The last day that the calendar can hold, as days since 1970-01-01:
/// December 31st of the year 262142.
pub const MAX_EPOCH_DAY: i32 = 95_026_236;

/// The stamp shown for a file whose modification time is not known.
pub const UNKNOWN_STAMP: &'static str = "unknown";

/// The day on which the instant `secs` seconds after 1970-01-01 00:00 UTC
/// falls, as days since 1970-01-01.
pub open spec fn epoch_day_of(secs: int) -> int {
    secs / (SECONDS_PER_DAY as int)
}

/// Whether the calendar can hold the day of the instant `secs`.
pub open spec fn representable(secs: int) -> bool {
    MIN_EPOCH_DAY <= epoch_day_of(secs) <= MAX_EPOCH_DAY
}

/// The UTC calendar day of the instant `secs`, where the calendar can hold it.
pub open spec fn utc_day(secs: int) -> Option<int> {
    if representable(secs) {
        Some(epoch_day_of(secs))
    } else {
        None
    }
}

/// The text `YYYY-MM-DD HH:MM` of the instant `secs` in UTC, as `chrono`
/// formats it with `%Y-%m-%d %H:%M`. It is meant where `representable(secs)`.
pub uninterp spec fn utc_minute_stamp(secs: int) -> Seq<char>;

/// The day that `chrono` reads from `text` with the format `%Y-%m-%d`, as days
/// since 1970-01-01; `None` where it reads no date.
pub uninterp spec fn parsed_date(text: Seq<char>) -> Option<int>;

/// The UTC calendar day of a modification time, where one is known.
pub open spec fn modified_day(modified: Option<i64>) -> Option<int> {
    match modified {
        Some(secs) => utc_day(secs as int),
        None => None,
    }
}

/// The stamp of a modification time: its minute in UTC, or `unknown`.
pub open spec fn stamp_of(modified: Option<i64>) -> Seq<char> {
    match modified {
        Some(secs) if representable(secs as int) => utc_minute_stamp(secs as int),
        _ => UNKNOWN_STAMP@,
    }
}

/// Whether `day` lies within the bounds, each of which is inclusive where it
/// is set.
pub open spec fn day_within(day: int, after: Option<i32>, before: Option<i32>) -> bool {
    &&& after matches Some(a) ==> a <= day
    &&& before matches Some(b) ==> day <= b
}

/// Whether a file modified at `modified` survives the date filter: no bound
/// is set, or the day of its modification is known and lies within the
/// bounds.
pub open spec fn survives_date_filter(
    modified: Option<i64>,
    after: Option<i32>,
    before: Option<i32>,
) -> bool {
    ||| (after is None && before is None)
    ||| (modified_day(modified) matches Some(day) && day_within(day, after, before))
}

/// What the date filter says of a file modified at `modified`.
pub open spec fn date_verdict(
    modified: Option<i64>,
    after: Option<i32>,
    before: Option<i32>,
) -> DateVerdict {
    if survives_date_filter(modified, after, before) {
        DateVerdict::Admitted
    } else if modified_day(modified) is Some {
        DateVerdict::Outside
    } else {
        DateVerdict::Unknown
    }
}

/// The second in which the instant `millis` milliseconds after the epoch
/// falls.
pub open spec fn second_of_millis(millis: int) -> int {
    millis / 1000
}

/// The date bounds of a search, each inclusive, in days since 1970-01-01.
#[derive(Clone, Copy, Debug, PartialEq, Eq, Structural)]
pub struct DateBounds {
    /// Files modified before this day are left out.
    pub after: Option<i32>,
    /// Files modified after this day are left out.
    pub before: Option<i32>,
}

/// What the date filter says of a file.
#[derive(Clone, Copy, Debug, PartialEq, Eq, Structural)]
pub enum DateVerdict {
    /// The file is to be read: no bound is set, or the day of its
    /// modification lies within the bounds.
    Admitted,
    /// The day of the file's modification lies outside the bounds.
    Outside,
    /// A bound is set, and the day of the file's modification cannot be
    /// told: the time is not known, or lies outside the calendar.
    Unknown,
}

/// Which of the two date bounds a text was given for.
#[derive(Clone, Copy, Debug, PartialEq, Eq, Structural)]
pub enum BoundSide {
    After,
    Before,
}

impl DateBounds {
    /// Whether any bound is set.
    pub open spec fn is_set(self) -> bool {
        self.after is Some || self.before is Some
    }

    /// Bounds that admit every day.
    pub fn unbounded() -> (b: DateBounds)
        ensures
            b.after is None,
            b.before is None,
    {
        DateBounds { after: None, before: None }
    }

    /// Whether any bound is set.
    pub fn any_set(&self) -> (r: bool)
        ensures
            r == self.is_set(),
    {
        self.after.is_some() || self.before.is_some()
    }

    /// Whether `day` lies within the bounds.
    pub fn admits_day(&self, day: i32) -> (r: bool)
        ensures
            r == day_within(day as int, self.after, self.before),
    {
        let late_enough = match self.after {
            Some(a) => a <= day,
            None => true,
        };
        let early_enough = match self.before {
            Some(b) => day <= b,
            None => true,
        };
        late_enough && early_enough
    }

    /// What the date filter says of a file modified at `modified`.
    ///
    /// The day is worked out only where a bound is set. With a bound set, a
    /// file whose modification time is unknown, or lies outside the calendar,
    /// cannot be held to it, and is not admitted.
    pub fn verdict(&self, modified: Option<i64>) -> (r: DateVerdict)
        ensures
            r == date_verdict(modified, self.after, self.before),
    {
        if !self.any_set() {
            return DateVerdict::Admitted;
        }
        let day = match modified {
            Some(secs) => utc_epoch_day(secs),
            None => None,
        };
        match day {
            Some(day) => if self.admits_day(day) {
                DateVerdict::Admitted
            } else {
                DateVerdict::Outside
            },
            None => DateVerdict::Unknown,
        }
    }

    /// Whether a file modified at `modified` survives the date filter.
    pub fn admits(&self, modified: Option<i64>) -> (r: bool)
        ensures
            r == survives_date_filter(modified, self.after, self.before),
    {
        match self.verdict(modified) {
            DateVerdict::Admitted => true,
            _ => false,
        }
    }
}

/// The stamp of a modification time: `YYYY-MM-DD HH:MM` in UTC, or `unknown`
/// where the time is not known or lies outside the calendar.
pub fn modified_stamp(modified: Option<i64>) -> (r: String)
    ensures
        r@ == stamp_of(modified),
{
    match modified {
        Some(secs) => match format_utc_minute(secs) {
            Some(stamp) => stamp,
            None => UNKNOWN_STAMP.to_owned(),
        },
        None => UNKNOWN_STAMP.to_owned(),
    }
}

/// The second in which the instant `millis` falls.
pub fn millis_to_seconds(millis: i64) -> (secs: i64)
    ensures
        secs as int == second_of_millis(millis as int),
{
    let quotient = millis / 1000;
    if millis % 1000 < 0 {
        quotient - 1
    } else {
        quotient
    }
}

/// The stamp of an instant given in milliseconds since the epoch.
pub fn millis_stamp(millis: i64) -> (r: String)
    ensures
        r@ == stamp_of(Some(second_of_millis(millis as int) as i64)),
{
    modified_stamp(Some(millis_to_seconds(millis)))
}

/// Reads the two date bounds of a search, `after` first.
///
/// A bound that was not supplied stays unset. The first supplied text that
/// holds no date is refused with its side.
pub fn parse_date_bounds(after: Option<&str>, before: Option<&str>) -> (r: Result<
    DateBounds,
    BoundSide,
>)
    ensures
        r == date_bounds_of(
            match after {
                Some(text) => Some(parsed_date(text@)),
                None => None,
            },
            match before {
                Some(text) => Some(parsed_date(text@)),
                None => None,
            },
        ),
{
    let after_parse = match after {
        Some(text) => Some(parse_date(text)),
        None => None,
    };
    let before_parse = match before {
        Some(text) => Some(parse_date(text)),
        None => None,
    };
    date_bounds_from(after_parse, before_parse)
}

/// The bounds that two parses give. The outer `Option` says whether a text
/// was supplied, the inner one whether a date was read from it.
pub open spec fn date_bounds_of(after: Option<Option<int>>, before: Option<Option<int>>) -> Result<
    DateBounds,
    BoundSide,
> {
    if after == Some(None::<int>) {
        Err(BoundSide::After)
    } else if before == Some(None::<int>) {
        Err(BoundSide::Before)
    } else {
        Ok(
            DateBounds {
                after: match after {
                    Some(Some(day)) => Some(day as i32),
                    _ => None,
                },
                before: match before {
                    Some(Some(day)) => Some(day as i32),
                    _ => None,
                },
            },
        )
    }
}

/// The bounds that two parses give: the days that were read, or the side of
/// the first supplied text from which none was read.
pub fn date_bounds_from(after: Option<Option<i32>>, before: Option<Option<i32>>) -> (r: Result<
    DateBounds,
    BoundSide,
>)
    ensures
        r == date_bounds_of(
            match after {
                Some(Some(day)) => Some(Some(day as int)),
                Some(None) => Some(None),
                None => None,
            },
            match before {
                Some(Some(day)) => Some(Some(day as int)),
                Some(None) => Some(None),
                None => None,
            },
        ),
{
    let after_day = match after {
        Some(Some(day)) => Some(day),
        Some(None) => {
            return Err(BoundSide::After);
        },
        None => None,
    };
    let before_day = match before {
        Some(Some(day)) => Some(day),
        Some(None) => {
            return Err(BoundSide::Before);
        },
        None => None,
    };
    Ok(DateBounds { after: after_day, before: before_day })
}

/// `chrono::DateTime::from_timestamp`, with `DateTime::date_naive` and
/// `NaiveDate::to_epoch_days` on what it gives. The contract claims that the
/// day of the instant `secs` is `secs` divided by 86400, rounded down, and
/// that `chrono` gives it exactly where it lies between `MIN_EPOCH_DAY` and
/// `MAX_EPOCH_DAY`, the first and the last day of its calendar.
#[verifier::external_body]
fn utc_epoch_day(secs: i64) -> (r: Option<i32>)
    ensures
        match r {
            Some(day) => utc_day(secs as int) == Some(day as int),
            None => utc_day(secs as int) is None,
        },
{
    match chrono::DateTime::from_timestamp(secs, 0) {
        Some(instant) => Some(instant.date_naive().to_epoch_days()),
        None => None,
    }
}

/// `chrono::DateTime::format` with `%Y-%m-%d %H:%M`, on the instant that
/// `chrono::DateTime::from_timestamp` makes of `secs`. The contract claims
/// that the text is a function of `secs` alone, which it names, and that
/// there is one exactly where the calendar holds the instant's day. Of the
/// text itself it claims nothing.
#[verifier::external_body]
fn format_utc_minute(secs: i64) -> (r: Option<String>)
    ensures
        match r {
            Some(stamp) => representable(secs as int) && stamp@ == utc_minute_stamp(secs as int),
            None => !representable(secs as int),
        },
{
    match chrono::DateTime::from_timestamp(secs, 0) {
        Some(instant) => Some(instant.format("%Y-%m-%d %H:%M").to_string()),
        None => None,
    }
}

/// `chrono::NaiveDate::parse_from_str` with the format `%Y-%m-%d`, and
/// `NaiveDate::to_epoch_days` on the date it reads. The contract claims that
/// the day is a function of the text alone, which it names, `None` standing
/// for a text that `chrono` refuses. Which texts it reads is not claimed.
#[verifier::external_body]
fn parse_date(text: &str) -> (r: Option<i32>)
    ensures
        match r {
            Some(day) => parsed_date(text@) == Some(day as int),
            None => parsed_date(text@) is None,
        },
{
    match chrono::NaiveDate::parse_from_str(text, "%Y-%m-%d") {
        Ok(date) => Some(date.to_epoch_days()),
        Err(_) => None,
    }
}

} // verus!
