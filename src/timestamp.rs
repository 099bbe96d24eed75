use vstd::prelude::*;
use vstd::string::*;
use crate::text::{
    four_digits, lacks, lemma_four_digits_chars, lemma_stamp_chars_concat, lemma_two_digits_chars,
    stamp_chars, two_digits,
};

verus! {

/// The earliest year a calendar date can have.
pub const MIN_YEAR: i32 = -262143;

/// The latest year a calendar date can have.
pub const MAX_YEAR: i32 = 262142;

/// Nanoseconds in one second; a clock reading at or above it is in a leap second.
pub const NANOS_PER_SECOND: u32 = 1000000000;

/// A calendar date and time of day to the second, in the proleptic Gregorian
/// calendar. A `second` of 60 is a leap second.
#[derive(Clone, Copy, Debug, PartialEq, Eq, Structural)]
pub struct Timestamp {
    pub year: i32,
    pub month: u32,
    pub day: u32,
    pub hour: u32,
    pub minute: u32,
    pub second: u32,
}

/// A date and time as the date-time library holds it: year, month, day, hour,
/// minute, second below 60, and nanoseconds, one second more inside a leap second.
pub type ClockFields = (i32, u32, u32, u32, u32, u32, u32);

pub open spec fn is_leap_year(y: int) -> bool {
    (y % 4 == 0 && y % 100 != 0) || y % 400 == 0
}

pub open spec fn days_in_month(y: int, m: int) -> int {
    if m == 2 {
        if is_leap_year(y) {
            29
        } else {
            28
        }
    } else if m == 4 || m == 6 || m == 9 || m == 11 {
        30
    } else {
        31
    }
}

/// A day that the calendar has.
pub open spec fn valid_date(y: int, m: int, d: int) -> bool {
    &&& MIN_YEAR <= y <= MAX_YEAR
    &&& 1 <= m <= 12
    &&& 1 <= d <= days_in_month(y, m)
}

/// A reading that the date-time library can hold.
pub open spec fn valid_clock(f: ClockFields) -> bool {
    &&& valid_date(f.0 as int, f.1 as int, f.2 as int)
    &&& f.3 < 24
    &&& f.4 < 60
    &&& f.5 < 60
    &&& f.6 < 2 * NANOS_PER_SECOND
    &&& f.6 >= NANOS_PER_SECOND ==> f.5 == 59
}

/// The timestamp a clock reading shows, sub-second part dropped.
pub open spec fn timestamp_of(f: ClockFields) -> Timestamp {
    Timestamp {
        year: f.0,
        month: f.1,
        day: f.2,
        hour: f.3,
        minute: f.4,
        second: if f.6 >= NANOS_PER_SECOND {
            60
        } else {
            f.5
        },
    }
}

/// The year as the stamp writes it: four digits from year 0 to 9999, else a sign
/// and at least four digits.
pub open spec fn year_text(y: int) -> Seq<char> {
    if 0 <= y <= 9999 {
        four_digits(y as nat)
    } else if y < 0 {
        seq!['-'] + four_digits((-y) as nat)
    } else {
        seq!['+'] + four_digits(y as nat)
    }
}

/// A stamp is not empty and holds neither `/` nor `.`.
pub proof fn lemma_stamp_is_a_name(t: Timestamp)
    requires
        t.wf(),
    ensures
        t.stamp().len() > 0,
        lacks(t.stamp(), '/'),
        lacks(t.stamp(), '.'),
{
    let y = t.year as int;
    lemma_four_digits_chars(if y < 0 { (-y) as nat } else { y as nat });
    let sign: Seq<char> = if y < 0 { seq!['-'] } else { seq!['+'] };
    assert(stamp_chars(sign));
    if !(0 <= y <= 9999) {
        lemma_stamp_chars_concat(sign, four_digits(if y < 0 { (-y) as nat } else { y as nat }));
    }
    let us: Seq<char> = seq!['_'];
    let dash: Seq<char> = seq!['-'];
    assert(stamp_chars(us));
    assert(stamp_chars(dash));
    lemma_two_digits_chars(t.month as nat);
    lemma_two_digits_chars(t.day as nat);
    lemma_two_digits_chars(t.hour as nat);
    lemma_two_digits_chars(t.minute as nat);
    lemma_two_digits_chars(t.second as nat);
    let s0 = year_text(y);
    let s1 = s0 + us;
    lemma_stamp_chars_concat(s0, us);
    let s2 = s1 + two_digits(t.month as nat);
    lemma_stamp_chars_concat(s1, two_digits(t.month as nat));
    let s3 = s2 + us;
    lemma_stamp_chars_concat(s2, us);
    let s4 = s3 + two_digits(t.day as nat);
    lemma_stamp_chars_concat(s3, two_digits(t.day as nat));
    let s5 = s4 + dash;
    lemma_stamp_chars_concat(s4, dash);
    let s6 = s5 + two_digits(t.hour as nat);
    lemma_stamp_chars_concat(s5, two_digits(t.hour as nat));
    let s7 = s6 + us;
    lemma_stamp_chars_concat(s6, us);
    let s8 = s7 + two_digits(t.minute as nat);
    lemma_stamp_chars_concat(s7, two_digits(t.minute as nat));
    let s9 = s8 + us;
    lemma_stamp_chars_concat(s8, us);
    lemma_stamp_chars_concat(s9, two_digits(t.second as nat));
    assert(t.stamp() == s9 + two_digits(t.second as nat));
    assert(t.stamp().len() > 0);
    assert forall|i: int| 0 <= i < t.stamp().len() implies t.stamp()[i] != '/' && t.stamp()[i]
        != '.' by {
        assert(stamp_chars(t.stamp()));
    }
}

impl Timestamp {
    pub open spec fn wf(&self) -> bool {
        &&& valid_date(self.year as int, self.month as int, self.day as int)
        &&& self.hour < 24
        &&& self.minute < 60
        &&& self.second <= 60
    }

    /// The stamp a file is named after: `YYYY_MM_DD-HH_MM_SS`.
    pub open spec fn stamp(&self) -> Seq<char> {
        year_text(self.year as int) + seq!['_'] + two_digits(self.month as nat) + seq!['_']
            + two_digits(self.day as nat) + seq!['-'] + two_digits(self.hour as nat) + seq!['_']
            + two_digits(self.minute as nat) + seq!['_'] + two_digits(self.second as nat)
    }

    /// The capture date as EXIF writes it: `YYYY:MM:DD HH:MM:SS`.
    pub open spec fn capture_text(&self) -> Seq<char> {
        four_digits(self.year as nat) + seq![':'] + two_digits(self.month as nat) + seq![':']
            + two_digits(self.day as nat) + seq![' '] + two_digits(self.hour as nat) + seq![':']
            + two_digits(self.minute as nat) + seq![':'] + two_digits(self.second as nat)
    }

    /// The clock reading that stands for this timestamp.
    pub open spec fn clock(&self) -> ClockFields {
        if self.second == 60 {
            (self.year, self.month, self.day, self.hour, self.minute, 59, NANOS_PER_SECOND)
        } else {
            (self.year, self.month, self.day, self.hour, self.minute, self.second, 0)
        }
    }

    /// The timestamp of a clock reading, or `None` where the reading is no valid
    /// date and time.
    pub fn from_clock_fields(
        year: i32,
        month: u32,
        day: u32,
        hour: u32,
        minute: u32,
        second: u32,
        nanosecond: u32,
    ) -> (r: Option<Timestamp>)
        ensures
            valid_clock((year, month, day, hour, minute, second, nanosecond)) ==> r == Some(
                timestamp_of((year, month, day, hour, minute, second, nanosecond)),
            ),
            !valid_clock((year, month, day, hour, minute, second, nanosecond)) ==> r is None,
            r matches Some(t) ==> t.wf(),
    {
        if !(MIN_YEAR <= year && year <= MAX_YEAR && 1 <= month && month <= 12 && 1 <= day) {
            return None;
        }
        let dim: u32 = if month == 2 {
            // Shifting by whole 400-year cycles keeps leap years and makes the year positive.
            let shifted: i64 = year as i64 + 400000;
            if (shifted % 4 == 0 && shifted % 100 != 0) || shifted % 400 == 0 {
                29
            } else {
                28
            }
        } else if month == 4 || month == 6 || month == 9 || month == 11 {
            30
        } else {
            31
        };
        if day > dim || hour >= 24 || minute >= 60 || second >= 60 || nanosecond >= 2
            * NANOS_PER_SECOND || (nanosecond >= NANOS_PER_SECOND && second != 59) {
            return None;
        }
        let s = if nanosecond >= NANOS_PER_SECOND {
            60
        } else {
            second
        };
        Some(Timestamp { year, month, day, hour, minute, second: s })
    }

    /// The clock reading that stands for this timestamp.
    pub fn to_clock(&self) -> (r: ClockFields)
        ensures
            r == self.clock(),
    {
        if self.second == 60 {
            (self.year, self.month, self.day, self.hour, self.minute, 59, NANOS_PER_SECOND)
        } else {
            (self.year, self.month, self.day, self.hour, self.minute, self.second, 0)
        }
    }

    /// The stamp of this timestamp, `YYYY_MM_DD-HH_MM_SS`, as the date-time
    /// library writes it.
    pub fn format_stamp(&self) -> (r: String)
        requires
            self.wf(),
        ensures
            r@ == self.stamp(),
    {
        let f = self.to_clock();
        format_clock(f.0, f.1, f.2, f.3, f.4, f.5, f.6)
    }
}

/// Relies on chrono's `NaiveDate::from_ymd_opt`, `NaiveDate::and_hms_nano_opt` and
/// `format("%Y_%m_%d-%H_%M_%S")`: the date is valid, so both give a value; the
/// pattern writes the year with four digits (a sign in front outside 0 to 9999),
/// each other field with two, the second one more inside a leap second.
#[verifier::external_body]
fn format_clock(
    year: i32,
    month: u32,
    day: u32,
    hour: u32,
    minute: u32,
    second: u32,
    nanosecond: u32,
) -> (r: String)
    requires
        valid_clock((year, month, day, hour, minute, second, nanosecond)),
    ensures
        r@ == timestamp_of((year, month, day, hour, minute, second, nanosecond)).stamp(),
{
    let date = chrono::NaiveDate::from_ymd_opt(year, month, day).unwrap();
    let datetime = date.and_hms_nano_opt(hour, minute, second, nanosecond).unwrap();
    datetime.format("%Y_%m_%d-%H_%M_%S").to_string()
}

} // verus!
