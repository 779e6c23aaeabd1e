use crate::abstractions::sensor::ISensor;
use crate::abstractions::utility::IUtility;
use crate::dtos::measurement::sample::{Exchange, Sample};
use crate::dtos::measurement::sensor::ds323x::DS323XSensorMeasurement;
use crate::enums::error::SensingError;
use crate::enums::failure::FailureReason;
use crate::enums::kind::SensorKind;
use crate::identity::{check_driver, driver_fault};
use crate::values::datetime::{
    day_number,
    days_before_year,
    is_date,
    lemma_day_number_in_year,
    lemma_year_of_day_number,
    lemma_years_in_order,
    UtcDateTime,
    UNIX_EPOCH_DAY,
};
use chrono::{Datelike, Timelike};
use vstd::prelude::*;
use vstd::string::*;

verus! {

/// Driver of the DS3231 real-time clock.
pub struct DS323XSensor {
    pub urn: String,
    pub device_urn: String,
    pub location_urn: String,
    pub name: String,
}

/// What to do with the clock when its driver is set up.
#[derive(Clone, Copy, Debug, PartialEq, Eq, Structural)]
pub enum SeedAction {
    /// The clock was set before and keeps its time.
    Keep,
    /// The clock is to be set to this moment.
    Write(UtcDateTime),
    /// The clock is not set and the moment offered cannot be held by it.
    Refuse,
}

/// Calendar fields as the calendar library gives them: year, month, day,
/// hour, minute, second.
#[derive(Clone, Copy, Debug, PartialEq, Eq)]
pub struct CalendarFields {
    pub year: i32,
    pub month: u32,
    pub day: u32,
    pub hour: u32,
    pub minute: u32,
    pub second: u32,
}

/// The date in UTC, as year, month and day, of the moment that lies `secs`
/// seconds after 1970-01-01T00:00:00Z, as `chrono` computes it; `None` where
/// `chrono` cannot hold the moment.
pub uninterp spec fn chrono_utc_date(secs: int) -> Option<(int, int, int)>;

/// The seconds of a moment since the midnight before it.
pub open spec fn second_of_day(secs: int) -> int {
    secs % 86_400
}

/// The first second of the year 0, in seconds from the start of 1970. The
/// moments from here to `LAST_SECOND` have years of four digits.
pub const FIRST_SECOND: i64 = -62_167_219_200;

/// The last second of the year 9999, in seconds from the start of 1970.
pub const LAST_SECOND: i64 = 253_402_300_799;

/// The calendar fields of the moment `secs` seconds after the start of 1970.
///
/// Trusted: stands for `chrono::DateTime::from_timestamp(secs, 0)` followed
/// by `naive_utc` and the getters of `Datelike` and `Timelike`.
/// - The date is what `chrono` computes, and is `None` exactly where
///   `from_timestamp` gives `None`. `chrono` documents `None` for moments
///   out of its range, which reaches some 262 000 years to either side of
///   the year 1; the moments from the year 0 to the year 9999 lie within.
/// - The date is a date of the proleptic Gregorian calendar, and its number
///   in the count of days from the first of January of the year 1 is the
///   whole days of `secs` and 719 163: `from_timestamp` hands that number
///   to `NaiveDate::from_num_days_from_ce_opt`, and `DateTime::timestamp`
///   gets `secs` back from the date's `num_days_from_ce`.
/// - The time of day is taken from the remainder of `secs` by 86 400,
///   which `chrono` splits into hours of 3 600 and minutes of 60 seconds.
#[verifier::external_body]
fn calendar_fields(secs: i64) -> (r: Option<CalendarFields>)
    ensures
        match r {
            Some(f) => chrono_utc_date(secs as int) == Some(
                (f.year as int, f.month as int, f.day as int),
            ) && is_date(f.year as int, f.month as int, f.day as int) && day_number(
                f.year as int,
                f.month as int,
                f.day as int,
            ) == secs as int / 86_400 + UNIX_EPOCH_DAY && f.hour == second_of_day(secs as int)
                / 3_600 && f.minute == second_of_day(secs as int) / 60 % 60 && f.second
                == second_of_day(secs as int) % 60,
            None => chrono_utc_date(secs as int) is None,
        },
        FIRST_SECOND <= secs <= LAST_SECOND ==> r is Some,
{
    let t = chrono::DateTime::from_timestamp(secs, 0)?.naive_utc();
    Some(
        CalendarFields {
            year: t.year(),
            month: t.month(),
            day: t.day(),
            hour: t.hour(),
            minute: t.minute(),
            second: t.second(),
        },
    )
}

/// The calendar fields of the moment `secs` seconds after the start of 1970:
/// the date that `chrono` computes, and the time of day that the remainder
/// of `secs` by 86 400 gives.
pub open spec fn fields_of(secs: int) -> Option<CalendarFields> {
    match chrono_utc_date(secs) {
        Some((year, month, day)) => Some(
            CalendarFields {
                year: year as i32,
                month: month as u32,
                day: day as u32,
                hour: (second_of_day(secs) / 3_600) as u32,
                minute: (second_of_day(secs) / 60 % 60) as u32,
                second: (second_of_day(secs) % 60) as u32,
            },
        ),
        None => None,
    }
}

/// The moment that calendar fields name, where a clock can hold it: the
/// year has at most four digits and the fields name a moment that exists.
pub open spec fn moment_of(f: CalendarFields) -> Option<UtcDateTime> {
    if 0 <= f.year <= 9999 && f.month <= 12 && f.day <= 31 && f.hour < 24 && f.minute < 60
        && f.second < 60 && (UtcDateTime {
        year: f.year as u16,
        month: f.month as u8,
        day: f.day as u8,
        hour: f.hour as u8,
        minute: f.minute as u8,
        second: f.second as u8,
    }).valid() {
        Some(
            UtcDateTime {
                year: f.year as u16,
                month: f.month as u8,
                day: f.day as u8,
                hour: f.hour as u8,
                minute: f.minute as u8,
                second: f.second as u8,
            },
        )
    } else {
        None
    }
}

/// What to do with a clock: one that was set before keeps its time; one that
/// was not is set to the moment offered, or refused where there is none
/// that it can hold.
pub open spec fn seed_plan(initialized: bool, now: Option<CalendarFields>) -> SeedAction {
    if initialized {
        SeedAction::Keep
    } else {
        match now {
            Some(f) => match moment_of(f) {
                Some(moment) => SeedAction::Write(moment),
                None => SeedAction::Refuse,
            },
            None => SeedAction::Refuse,
        }
    }
}

/// What the driver makes of an exchange: calendar fields that name a moment
/// are reported, others are a protocol error, as is a sample of another
/// kind; a failed exchange keeps its reason.
pub open spec fn clock_reading(exchange: Exchange) -> Result<DS323XSensorMeasurement, FailureReason> {
    match exchange {
        Ok(Sample::Clock(datetime)) => if datetime.valid() {
            Ok(DS323XSensorMeasurement { datetime })
        } else {
            Err(FailureReason::ProtocolError)
        },
        Ok(_) => Err(FailureReason::ProtocolError),
        Err(reason) => Err(reason),
    }
}

/// The moment that calendar fields name, where a clock can hold it.
pub fn to_moment(f: &CalendarFields) -> (r: Option<UtcDateTime>)
    ensures
        r == moment_of(*f),
{
    if 0 <= f.year && f.year <= 9999 && f.month <= 12 && f.day <= 31 && f.hour < 24 && f.minute
        < 60 && f.second < 60 {
        let moment = UtcDateTime {
            year: f.year as u16,
            month: f.month as u8,
            day: f.day as u8,
            hour: f.hour as u8,
            minute: f.minute as u8,
            second: f.second as u8,
        };
        if moment.is_valid() {
            Some(moment)
        } else {
            None
        }
    } else {
        None
    }
}

impl DS323XSensor {
    /// The names are not empty and the short name is that of the DS3231.
    pub open spec fn wf(&self) -> bool {
        driver_fault(
            set![SensorKind::Ds3231sn],
            self.urn@,
            self.device_urn@,
            self.location_urn@,
            self.name@,
        ) is None
    }

    /// A driver with the given names. `name` must be the short name of the DS3231.
    pub fn new(urn: String, device_urn: String, location_urn: String, name: String) -> (r: Result<
        Self,
        SensingError,
    >)
        ensures
            match r {
                Ok(s) => s.urn == urn && s.device_urn == device_urn && s.location_urn
                    == location_urn && s.name == name && s.wf(),
                Err(e) => Some(e) == driver_fault(
                    set![SensorKind::Ds3231sn],
                    urn@,
                    device_urn@,
                    location_urn@,
                    name@,
                ),
            },
    {
        match check_driver(urn.as_str(), device_urn.as_str(), location_urn.as_str(), name.as_str()) {
            Ok(SensorKind::Ds3231sn) => Ok(DS323XSensor { urn, device_urn, location_urn, name }),
            Ok(_) => Err(SensingError::WrongName),
            Err(e) => Err(e),
        }
    }

    /// What to do with the clock, given whether it was set before and the
    /// calendar fields of the present moment.
    pub fn seed_from(&self, initialized: bool, now: Option<CalendarFields>) -> (r: SeedAction)
        ensures
            r == seed_plan(initialized, now),
            r matches SeedAction::Write(moment) ==> moment.valid(),
    {
        if initialized {
            return SeedAction::Keep;
        }
        match now {
            Some(f) => match to_moment(&f) {
                Some(moment) => SeedAction::Write(moment),
                None => SeedAction::Refuse,
            },
            None => SeedAction::Refuse,
        }
    }

    /// What to do with the clock, given whether it was set before and the
    /// present moment in seconds since the start of 1970. A clock that was
    /// set before keeps its time. A fresh clock is set where the present
    /// moment has a year of four digits, and then to the moment that lies
    /// so many seconds after the start of 1970; any other moment is refused.
    pub fn seed(&self, initialized: bool, now: i64) -> (r: SeedAction)
        ensures
            r == seed_plan(initialized, fields_of(now as int)),
            initialized ==> r == SeedAction::Keep,
            !initialized && FIRST_SECOND <= now <= LAST_SECOND ==> r is Write,
            !initialized && !(FIRST_SECOND <= now <= LAST_SECOND) ==> r == SeedAction::Refuse,
            r matches SeedAction::Write(moment) ==> moment.valid() && moment.unix_time() == now,
    {
        if initialized {
            return SeedAction::Keep;
        }
        let fields = calendar_fields(now);
        assert(fields == fields_of(now as int));
        proof {
            if fields is Some {
                let f = fields->0;
                let (y, m, d) = (f.year as int, f.month as int, f.day as int);
                assert(day_number(0, 1, 1) == -365 && day_number(9999, 12, 31) == 3_652_059);
                assert(now as int == (now as int / 86_400) * 86_400 + second_of_day(now as int));
                if FIRST_SECOND <= now <= LAST_SECOND {
                    lemma_year_of_day_number(y, m, d, 0, 9999);
                } else if 0 <= y <= 9999 {
                    lemma_day_number_in_year(y, m, d);
                    lemma_years_in_order(0, y);
                    lemma_years_in_order(y + 1, 10000);
                    assert(days_before_year(0) == -366 && days_before_year(10000) == 3_652_059);
                }
            }
        }
        self.seed_from(initialized, fields)
    }

    /// What the driver makes of an exchange with the part.
    pub fn _read(&self, exchange: Exchange) -> (r: Result<DS323XSensorMeasurement, FailureReason>)
        ensures
            r == clock_reading(exchange),
            r matches Ok(m) ==> m.wf(),
    {
        match exchange {
            Ok(Sample::Clock(datetime)) => {
                if datetime.is_valid() {
                    Ok(DS323XSensorMeasurement { datetime })
                } else {
                    Err(FailureReason::ProtocolError)
                }
            },
            Ok(_) => Err(FailureReason::ProtocolError),
            Err(reason) => Err(reason),
        }
    }
}

impl IUtility for DS323XSensor {
    open spec fn urn_text(&self) -> Seq<char> {
        self.urn@
    }

    open spec fn device_urn_text(&self) -> Seq<char> {
        self.device_urn@
    }

    open spec fn location_urn_text(&self) -> Seq<char> {
        self.location_urn@
    }

    fn urn(&self) -> (r: String) {
        self.urn.clone()
    }

    fn device_urn(&self) -> (r: String) {
        self.device_urn.clone()
    }

    fn location_urn(&self) -> (r: String) {
        self.location_urn.clone()
    }
}

impl ISensor<DS323XSensorMeasurement> for DS323XSensor {
    open spec fn name_text(&self) -> Seq<char> {
        self.name@
    }

    open spec fn reading(&self, exchange: Exchange) -> Result<
        DS323XSensorMeasurement,
        FailureReason,
    > {
        clock_reading(exchange)
    }

    fn name(&self) -> (r: String) {
        self.name.clone()
    }

    fn read(&self, exchange: Exchange) -> (r: Result<DS323XSensorMeasurement, FailureReason>) {
        self._read(exchange)
    }
}

} // verus!
