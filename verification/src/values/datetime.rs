use crate::values::digits::{digit_char, push_four_digits, push_two_digits};
use crate::values::text::push_char;
use vstd::prelude::*;

verus! {

/// A moment in UTC by the calendar, to the second, as a real-time clock
/// holds it.
#[derive(Clone, Copy, Debug, PartialEq, Eq, Structural)]
pub struct UtcDateTime {
    pub year: u16,
    pub month: u8,
    pub day: u8,
    pub hour: u8,
    pub minute: u8,
    pub second: u8,
}

/// Whether a year of the Gregorian calendar has a 29th of February.
pub open spec fn leap_year(year: int) -> bool {
    year % 4 == 0 && (year % 100 != 0 || year % 400 == 0)
}

/// The number of days of a month from 1 to 12 in the Gregorian calendar;
/// 0 for any other month.
pub open spec fn days_in_month(year: int, month: int) -> int {
    if month == 2 {
        if leap_year(year) {
            29
        } else {
            28
        }
    } else if month == 4 || month == 6 || month == 9 || month == 11 {
        30
    } else if 1 <= month <= 12 {
        31
    } else {
        0
    }
}

/// The number of days from the start of the year 1 to the start of `year`
/// in the Gregorian calendar, reckoned backwards too: 365 for each year,
/// and one more for each leap year.
pub open spec fn days_before_year(year: int) -> int {
    365 * (year - 1) + (year - 1) / 4 - (year - 1) / 100 + (year - 1) / 400
}

/// The number of days from the start of `year` to the start of its month
/// `month`; 0 for a month that is none.
pub open spec fn days_before_month(year: int, month: int) -> int {
    let leap: int = if leap_year(year) {
        1
    } else {
        0
    };
    if month == 2 {
        31
    } else if month == 3 {
        59 + leap
    } else if month == 4 {
        90 + leap
    } else if month == 5 {
        120 + leap
    } else if month == 6 {
        151 + leap
    } else if month == 7 {
        181 + leap
    } else if month == 8 {
        212 + leap
    } else if month == 9 {
        243 + leap
    } else if month == 10 {
        273 + leap
    } else if month == 11 {
        304 + leap
    } else if month == 12 {
        334 + leap
    } else {
        0
    }
}

/// Whether a year, a month and a day name a date of the Gregorian calendar.
pub open spec fn is_date(year: int, month: int, day: int) -> bool {
    1 <= month <= 12 && 1 <= day <= days_in_month(year, month)
}

/// The number of a date in the count of days in which the first of January
/// of the year 1 is day 1.
pub open spec fn day_number(year: int, month: int, day: int) -> int {
    days_before_year(year) + days_before_month(year, month) + day
}

/// The number of the first of January 1970 in the count of days.
pub const UNIX_EPOCH_DAY: i64 = 719_163;

/// A year begins 365 or 366 days after the year before it.
pub proof fn lemma_year_length(year: int)
    ensures
        days_before_year(year + 1) == days_before_year(year) + (if leap_year(year) {
            366int
        } else {
            365int
        }),
{
}

/// Later years begin later.
pub proof fn lemma_years_in_order(earlier: int, later: int)
    requires
        earlier <= later,
    ensures
        days_before_year(earlier) + 365 * (later - earlier) <= days_before_year(later),
    decreases later - earlier,
{
    if earlier < later {
        lemma_years_in_order(earlier, later - 1);
        lemma_year_length(later - 1);
    }
}

/// The number of a date lies within the year of the date.
pub proof fn lemma_day_number_in_year(year: int, month: int, day: int)
    requires
        is_date(year, month, day),
    ensures
        days_before_year(year) < day_number(year, month, day) <= days_before_year(year + 1),
{
    lemma_year_length(year);
}

/// A date whose number lies between those of the first day of `first` and
/// the last day of `last` is a date of a year between the two.
pub proof fn lemma_year_of_day_number(year: int, month: int, day: int, first: int, last: int)
    requires
        is_date(year, month, day),
        day_number(first, 1, 1) <= day_number(year, month, day) <= day_number(last, 12, 31),
    ensures
        first <= year <= last,
{
    lemma_day_number_in_year(year, month, day);
    lemma_day_number_in_year(last, 12, 31);
    if year > last {
        lemma_years_in_order(last + 1, year);
    }
    if year < first {
        lemma_years_in_order(year + 1, first);
    }
}

/// No two dates have the same number.
pub proof fn lemma_day_number_one_to_one(a: (int, int, int), b: (int, int, int))
    requires
        is_date(a.0, a.1, a.2),
        is_date(b.0, b.1, b.2),
        day_number(a.0, a.1, a.2) == day_number(b.0, b.1, b.2),
    ensures
        a == b,
{
    lemma_year_of_day_number(a.0, a.1, a.2, b.0, b.0);
    lemma_day_number_in_year(b.0, b.1, b.2);
    lemma_day_number_in_year(b.0, 1, 1);
    lemma_day_number_in_year(b.0, 12, 31);
}

/// Whether a year has a 29th of February.
pub fn is_leap_year(year: u16) -> (r: bool)
    ensures
        r == leap_year(year as int),
{
    year % 4 == 0 && (year % 100 != 0 || year % 400 == 0)
}

/// The number of days of a month; 0 for a month that is none.
pub fn month_length(year: u16, month: u8) -> (r: u8)
    ensures
        r == days_in_month(year as int, month as int),
{
    if month == 2 {
        if is_leap_year(year) {
            29
        } else {
            28
        }
    } else if month == 4 || month == 6 || month == 9 || month == 11 {
        30
    } else if 1 <= month && month <= 12 {
        31
    } else {
        0
    }
}

impl UtcDateTime {
    /// Whether the fields name a moment that exists: a year of at most four
    /// digits, a day that the month has, and a time of day without leap
    /// second.
    pub open spec fn valid(self) -> bool {
        &&& self.year <= 9999
        &&& 1 <= self.month <= 12
        &&& 1 <= self.day <= days_in_month(self.year as int, self.month as int)
        &&& self.hour < 24
        &&& self.minute < 60
        &&& self.second < 60
    }

    /// The seconds from the start of 1970 to the moment, leap seconds not
    /// counted.
    pub open spec fn unix_time(self) -> int {
        (day_number(self.year as int, self.month as int, self.day as int) - UNIX_EPOCH_DAY)
            * 86_400 + self.hour * 3_600 + self.minute * 60 + self.second
    }

    /// The seconds from the start of 1970 to the moment, leap seconds not
    /// counted.
    pub fn unix_seconds(&self) -> (r: i64)
        ensures
            r == self.unix_time(),
    {
        let y: i64 = self.year as i64 - 1;
        let before_year: i64 = if y < 0 {
            -366
        } else {
            365 * y + y / 4 - y / 100 + y / 400
        };
        let leap: i64 = if is_leap_year(self.year) {
            1
        } else {
            0
        };
        let m = self.month;
        let before_month: i64 = if m == 2 {
            31
        } else if m == 3 {
            59 + leap
        } else if m == 4 {
            90 + leap
        } else if m == 5 {
            120 + leap
        } else if m == 6 {
            151 + leap
        } else if m == 7 {
            181 + leap
        } else if m == 8 {
            212 + leap
        } else if m == 9 {
            243 + leap
        } else if m == 10 {
            273 + leap
        } else if m == 11 {
            304 + leap
        } else if m == 12 {
            334 + leap
        } else {
            0
        };
        let days: i64 = before_year + before_month + self.day as i64 - UNIX_EPOCH_DAY;
        days * 86_400 + (self.hour as i64) * 3_600 + (self.minute as i64) * 60 + self.second as i64
    }

    /// No two moments that exist lie equally many seconds after the start
    /// of 1970.
    pub proof fn lemma_unix_time_one_to_one(self, other: UtcDateTime)
        requires
            self.valid(),
            other.valid(),
            self.unix_time() == other.unix_time(),
        ensures
            self == other,
    {
        let a = self.hour * 3_600 + self.minute * 60 + self.second;
        let b = other.hour * 3_600 + other.minute * 60 + other.second;
        let da = day_number(self.year as int, self.month as int, self.day as int);
        let db = day_number(other.year as int, other.month as int, other.day as int);
        assert(0 <= a < 86_400 && 0 <= b < 86_400);
        assert((da - UNIX_EPOCH_DAY) * 86_400 + a == (db - UNIX_EPOCH_DAY) * 86_400 + b);
        assert(da == db);
        lemma_day_number_one_to_one(
            (self.year as int, self.month as int, self.day as int),
            (other.year as int, other.month as int, other.day as int),
        );
    }

    /// The moment in the form `YYYY-MM-DDTHH:MM:SSZ`.
    pub open spec fn iso_text(self) -> Seq<char> {
        seq![
            digit_char((self.year / 1000 % 10) as int),
            digit_char((self.year / 100 % 10) as int),
            digit_char((self.year / 10 % 10) as int),
            digit_char((self.year % 10) as int),
            '-',
            digit_char((self.month / 10 % 10) as int),
            digit_char((self.month % 10) as int),
            '-',
            digit_char((self.day / 10 % 10) as int),
            digit_char((self.day % 10) as int),
            'T',
            digit_char((self.hour / 10 % 10) as int),
            digit_char((self.hour % 10) as int),
            ':',
            digit_char((self.minute / 10 % 10) as int),
            digit_char((self.minute % 10) as int),
            ':',
            digit_char((self.second / 10 % 10) as int),
            digit_char((self.second % 10) as int),
            'Z',
        ]
    }

    /// Appends the moment in the form `YYYY-MM-DDTHH:MM:SSZ`.
    pub fn push_iso8601(&self, out: &mut String)
        ensures
            final(out)@ == old(out)@ + self.iso_text(),
    {
        push_four_digits(out, self.year as u64);
        push_char(out, '-');
        push_two_digits(out, self.month as u64);
        push_char(out, '-');
        push_two_digits(out, self.day as u64);
        push_char(out, 'T');
        push_two_digits(out, self.hour as u64);
        push_char(out, ':');
        push_two_digits(out, self.minute as u64);
        push_char(out, ':');
        push_two_digits(out, self.second as u64);
        push_char(out, 'Z');
        assert(final(out)@ =~= old(out)@ + self.iso_text());
    }

    /// The moment in the form `YYYY-MM-DDTHH:MM:SSZ`.
    pub fn iso8601(&self) -> (s: String)
        ensures
            s@ == self.iso_text(),
    {
        let mut s = String::new();
        self.push_iso8601(&mut s);
        assert(s@ =~= self.iso_text());
        s
    }

    /// Whether the fields name a moment that exists.
    pub fn is_valid(&self) -> (r: bool)
        ensures
            r == self.valid(),
    {
        self.year <= 9999 && 1 <= self.month && self.month <= 12 && 1 <= self.day && self.day
            <= month_length(self.year, self.month) && self.hour < 24 && self.minute < 60
            && self.second < 60
    }
}

} // verus!
