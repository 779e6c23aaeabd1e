use crate::dtos::measurement::base::{Measurement, ReadOutcome};
use crate::dtos::measurement::sensor::bh1750::BH1750SensorMeasurement;
use crate::dtos::measurement::sensor::bme280::BME280SensorMeasurement;
use crate::dtos::measurement::sensor::ds323x::DS323XSensorMeasurement;
use crate::dtos::measurement::sensor::lsm303dlhc::mag::LSM303DLHCMAGSensorMeasurement;
use crate::dtos::measurement::sensor::vl53l0x::VL53L0XSensorMeasurement;
use crate::dtos::response::services::sensing_client::{
    failures,
    ReportView,
    SensingClientServiceResponseDTO,
    Slot,
};
use crate::enums::condition::LightCondition;
use crate::enums::failure::FailureReason;
use crate::enums::kind::SensorKind;
use crate::enums::proximity::ProximityClass;
use crate::values::datetime::UtcDateTime;
use crate::values::digits::{digit_value, is_digit, to_digit_value};
use crate::values::fixed::Fixed;
use crate::values::text::{chars_of, same_text};
use crate::wire::reader::{
    expect_char,
    lemma_skip_skip,
    parse_fixed,
    parse_string,
    parse_uint,
    read_char,
    read_fixed,
    read_string,
    read_uint,
    string_tail,
    unescape,
};
use vstd::prelude::*;
use vstd::string::*;

verus! {

/// The name of the member at the start of `s`, and what follows its colon.
pub open spec fn parse_member(s: Seq<char>) -> Option<(Seq<char>, Seq<char>)> {
    match parse_string(s) {
        Some((name, r)) => match expect_char(r, ':') {
            Some(rest) => Some((name, rest)),
            None => None,
        },
        None => None,
    }
}

/// What follows the member name `name` and its colon at the start of `s`.
pub open spec fn expect_member(s: Seq<char>, name: Seq<char>) -> Option<Seq<char>> {
    match parse_member(s) {
        Some((found, rest)) => if found == name {
            Some(rest)
        } else {
            None
        },
        None => None,
    }
}

/// What follows a comma, the member name `name` and its colon.
pub open spec fn next_member(s: Seq<char>, name: Seq<char>) -> Option<Seq<char>> {
    match expect_char(s, ',') {
        Some(rest) => expect_member(rest, name),
        None => None,
    }
}

/// The number with a fraction that follows a comma and the member name
/// `name`.
pub open spec fn next_fixed(s: Seq<char>, name: Seq<char>) -> Option<(Fixed, Seq<char>)> {
    match next_member(s, name) {
        Some(rest) => parse_fixed(rest),
        None => None,
    }
}

/// The text that follows a comma and the member name `name`.
pub open spec fn next_text(s: Seq<char>, name: Seq<char>) -> Option<(Seq<char>, Seq<char>)> {
    match next_member(s, name) {
        Some(rest) => parse_string(rest),
        None => None,
    }
}

/// The number of two digits at `i` in `t`.
pub open spec fn pair_at(t: Seq<char>, i: int) -> int {
    digit_value(t[i]) * 10 + digit_value(t[i + 1])
}

/// Whether `t` has the form `YYYY-MM-DDTHH:MM:SSZ`, with digits in the
/// place of the letters.
pub open spec fn iso_shaped(t: Seq<char>) -> bool {
    &&& t.len() == 20
    &&& is_digit(t[0]) && is_digit(t[1]) && is_digit(t[2]) && is_digit(t[3])
    &&& t[4] == '-'
    &&& is_digit(t[5]) && is_digit(t[6])
    &&& t[7] == '-'
    &&& is_digit(t[8]) && is_digit(t[9])
    &&& t[10] == 'T'
    &&& is_digit(t[11]) && is_digit(t[12])
    &&& t[13] == ':'
    &&& is_digit(t[14]) && is_digit(t[15])
    &&& t[16] == ':'
    &&& is_digit(t[17]) && is_digit(t[18])
    &&& t[19] == 'Z'
}

/// The fields that a text of the form `YYYY-MM-DDTHH:MM:SSZ` holds.
pub open spec fn iso_fields(t: Seq<char>) -> UtcDateTime {
    UtcDateTime {
        year: (pair_at(t, 0) * 100 + pair_at(t, 2)) as u16,
        month: pair_at(t, 5) as u8,
        day: pair_at(t, 8) as u8,
        hour: pair_at(t, 11) as u8,
        minute: pair_at(t, 14) as u8,
        second: pair_at(t, 17) as u8,
    }
}

/// The moment that a text of the form `YYYY-MM-DDTHH:MM:SSZ` names, where
/// it names one that exists.
#[verifier::opaque]
pub open spec fn parse_iso(t: Seq<char>) -> Option<UtcDateTime> {
    if iso_shaped(t) && iso_fields(t).valid() {
        Some(iso_fields(t))
    } else {
        None
    }
}

/// The outcome whose first member is named `name`; `s` is what follows the
/// colon of that member. The name of the first member tells the kind of
/// the outcome.
#[verifier::opaque]
pub open spec fn parse_body(name: Seq<char>, s: Seq<char>) -> Option<(ReadOutcome, Seq<char>)> {
    if name == "error"@ {
        match parse_string(s) {
            Some((label, rest)) => match FailureReason::named(label) {
                Some(reason) => Some((ReadOutcome::Failure { reason }, rest)),
                None => None,
            },
            None => None,
        }
    } else if name == "lux"@ {
        match parse_fixed(s) {
            Some((lux, r1)) => match next_text(r1, "condition"@) {
                Some((label, rest)) => match LightCondition::named(label) {
                    Some(condition) => Some(
                        (
                            ReadOutcome::Measurement(
                                Measurement::Illuminance(BH1750SensorMeasurement { lux, condition }),
                            ),
                            rest,
                        ),
                    ),
                    None => None,
                },
                None => None,
            },
            None => None,
        }
    } else if name == "temperature"@ {
        match parse_fixed(s) {
            Some((temperature, r1)) => match next_fixed(r1, "humidity"@) {
                Some((humidity, r2)) => match next_fixed(r2, "pressure"@) {
                    Some((pressure, rest)) => Some(
                        (
                            ReadOutcome::Measurement(
                                Measurement::Atmosphere(
                                    BME280SensorMeasurement { temperature, humidity, pressure },
                                ),
                            ),
                            rest,
                        ),
                    ),
                    None => None,
                },
                None => None,
            },
            None => None,
        }
    } else if name == "datetime"@ {
        match parse_string(s) {
            Some((text, rest)) => match parse_iso(text) {
                Some(datetime) => Some(
                    (
                        ReadOutcome::Measurement(
                            Measurement::Clock(DS323XSensorMeasurement { datetime }),
                        ),
                        rest,
                    ),
                ),
                None => None,
            },
            None => None,
        }
    } else if name == "distance_mm"@ {
        match parse_uint(s) {
            Some((distance, r1)) => if distance <= u16::MAX {
                match next_text(r1, "status"@) {
                    Some((label, rest)) => match ProximityClass::named(label) {
                        Some(status) => Some(
                            (
                                ReadOutcome::Measurement(
                                    Measurement::Range(
                                        VL53L0XSensorMeasurement {
                                            distance_mm: distance as u16,
                                            status,
                                        },
                                    ),
                                ),
                                rest,
                            ),
                        ),
                        None => None,
                    },
                    None => None,
                }
            } else {
                None
            },
            None => None,
        }
    } else if name == "x"@ {
        match parse_fixed(s) {
            Some((x, r1)) => match next_fixed(r1, "y"@) {
                Some((y, r2)) => match next_fixed(r2, "z"@) {
                    Some((z, r3)) => match next_fixed(r3, "magnitude"@) {
                        Some((magnitude, r4)) => match next_fixed(r4, "tilt"@) {
                            Some((tilt, rest)) => Some(
                                (
                                    ReadOutcome::Measurement(
                                        Measurement::Acceleration(
                                            LSM303DLHCMAGSensorMeasurement {
                                                x,
                                                y,
                                                z,
                                                magnitude,
                                                tilt,
                                            },
                                        ),
                                    ),
                                    rest,
                                ),
                            ),
                            None => None,
                        },
                        None => None,
                    },
                    None => None,
                },
                None => None,
            },
            None => None,
        }
    } else {
        None
    }
}

/// The outcome that the JSON object at the start of `s` stands for, and what
/// follows the object.
#[verifier::opaque]
pub open spec fn parse_outcome(s: Seq<char>) -> Option<(ReadOutcome, Seq<char>)> {
    match expect_char(s, '{') {
        Some(r1) => match parse_member(r1) {
            Some((name, r2)) => match parse_body(name, r2) {
                Some((outcome, r3)) => match expect_char(r3, '}') {
                    Some(rest) => Some((outcome, rest)),
                    None => None,
                },
                None => None,
            },
            None => None,
        },
        None => None,
    }
}

/// The slot at the start of `s`, and what follows it. The key selects the
/// sensor as a configured name does.
#[verifier::opaque]
pub open spec fn parse_slot(s: Seq<char>) -> Option<(Slot, Seq<char>)> {
    match parse_member(s) {
        Some((key, r1)) => match SensorKind::lookup(key) {
            Some(kind) => match parse_outcome(r1) {
                Some((outcome, rest)) => Some((Slot { kind, outcome }, rest)),
                None => None,
            },
            None => None,
        },
        None => None,
    }
}

/// The slots at the start of `s`, one at least, with commas between them,
/// and what follows the last one.
pub open spec fn parse_slots(s: Seq<char>) -> Option<(Seq<Slot>, Seq<char>)>
    decreases s.len(),
{
    match parse_slot(s) {
        Some((slot, r)) => if r.len() > 0 && r[0] == ',' {
            if r.len() <= s.len() {
                match parse_slots(r.skip(1)) {
                    Some((more, rest)) => Some((seq![slot] + more, rest)),
                    None => None,
                }
            } else {
                None
            }
        } else {
            Some((seq![slot], r))
        },
        None => None,
    }
}

/// The slots of the JSON object at the start of `s`, and what follows the
/// object.
#[verifier::opaque]
pub open spec fn parse_data(s: Seq<char>) -> Option<(Seq<Slot>, Seq<char>)> {
    match expect_char(s, '{') {
        Some(r1) => if r1.len() > 0 && r1[0] == '}' {
            Some((Seq::empty(), r1.skip(1)))
        } else {
            match parse_slots(r1) {
                Some((data, r2)) => match expect_char(r2, '}') {
                    Some(rest) => Some((data, rest)),
                    None => None,
                },
                None => None,
            }
        },
        None => None,
    }
}

/// Whether a status is the one of the slots: `partial` where one holds a
/// failure, `ok` otherwise.
pub open spec fn status_fits(status: Seq<char>, data: Seq<Slot>) -> bool {
    if failures(data) > 0 {
        status == "partial"@
    } else {
        status == "ok"@
    }
}

/// What stands in a report before its slots.
pub struct Head {
    pub status: String,
    pub device_urn: String,
    pub location_urn: String,
    pub cycle_id: u64,
}

/// The head of a report as a mathematical value.
pub struct HeadView {
    pub status: Seq<char>,
    pub device_urn: Seq<char>,
    pub location_urn: Seq<char>,
    pub cycle_id: u64,
}

impl View for Head {
    type V = HeadView;

    open spec fn view(&self) -> HeadView {
        HeadView {
            status: self.status@,
            device_urn: self.device_urn@,
            location_urn: self.location_urn@,
            cycle_id: self.cycle_id,
        }
    }
}

/// The three texts at the start of a report that are kept: the status, the
/// device and the location. The message stands between them and is not
/// looked at.
#[verifier::opaque]
pub open spec fn parse_texts(s: Seq<char>) -> Option<(HeadView, Seq<char>)> {
    match expect_char(s, '{') {
        Some(r0) => match expect_member(r0, "status"@) {
            Some(r1) => match parse_string(r1) {
                Some((status, r2)) => match next_text(r2, "message"@) {
                    Some((_, r3)) => match next_text(r3, "device"@) {
                        Some((device_urn, r4)) => match next_text(r4, "location"@) {
                            Some((location_urn, rest)) => Some(
                                (HeadView { status, device_urn, location_urn, cycle_id: 0 }, rest),
                            ),
                            None => None,
                        },
                        None => None,
                    },
                    None => None,
                },
                None => None,
            },
            None => None,
        },
        None => None,
    }
}

/// The head of the report at the start of `s`, and what follows the number
/// of the cycle.
#[verifier::opaque]
pub open spec fn parse_head(s: Seq<char>) -> Option<(HeadView, Seq<char>)> {
    match parse_texts(s) {
        Some((texts, r5)) => match next_member(r5, "cycleId"@) {
            Some(r6) => match parse_uint(r6) {
                Some((cycle_id, rest)) => if cycle_id <= u64::MAX {
                    Some((HeadView { cycle_id: cycle_id as u64, ..texts }, rest))
                } else {
                    None
                },
                None => None,
            },
            None => None,
        },
        None => None,
    }
}

/// The report that a text in wire form stands for. The members stand in
/// the order `status`, `message`, `device`, `location`, `cycleId`, `data`,
/// without blanks between them, and nothing follows the report. The status
/// must be the one of the slots, no sensor may have two slots, and every
/// outcome must keep the rule of its kind; the message is not looked at.
pub open spec fn parse_report(s: Seq<char>) -> Option<ReportView> {
    match parse_head(s) {
        Some((head, r7)) => match next_member(r7, "data"@) {
            Some(r8) => match parse_data(r8) {
                Some((data, r9)) => {
                    let report = ReportView {
                        device_urn: head.device_urn,
                        location_urn: head.location_urn,
                        cycle_id: head.cycle_id,
                        data,
                    };
                    if status_fits(head.status, data) && r9 == seq!['}'] && report.wf() {
                        Some(report)
                    } else {
                        None
                    }
                },
                None => None,
            },
            None => None,
        },
        None => None,
    }
}

/// Reads a member name and its colon at `pos`.
pub fn read_member(v: &Vec<char>, pos: usize) -> (r: Option<(String, usize)>)
    requires
        pos <= v.len(),
    ensures
        match r {
            Some((name, q)) => pos < q <= v.len() && parse_member(v@.skip(pos as int)) == Some(
                (name@, v@.skip(q as int)),
            ),
            None => parse_member(v@.skip(pos as int)) is None,
        },
{
    let (name, p) = match read_string(v, pos) {
        Some(found) => found,
        None => {
            return None;
        },
    };
    match read_char(v, p, ':') {
        Some(q) => Some((name, q)),
        None => None,
    }
}

/// Reads the member name `name` and its colon at `pos`.
pub fn read_named(v: &Vec<char>, pos: usize, name: &str) -> (r: Option<usize>)
    requires
        pos <= v.len(),
    ensures
        match r {
            Some(q) => pos < q <= v.len() && expect_member(v@.skip(pos as int), name@) == Some(
                v@.skip(q as int),
            ),
            None => expect_member(v@.skip(pos as int), name@) is None,
        },
{
    match read_member(v, pos) {
        Some((found, q)) => {
            if same_text(found.as_str(), name) {
                Some(q)
            } else {
                None
            }
        },
        None => None,
    }
}

/// Reads a comma, the member name `name` and its colon at `pos`.
pub fn read_next_named(v: &Vec<char>, pos: usize, name: &str) -> (r: Option<usize>)
    requires
        pos <= v.len(),
    ensures
        match r {
            Some(q) => pos < q <= v.len() && next_member(v@.skip(pos as int), name@) == Some(
                v@.skip(q as int),
            ),
            None => next_member(v@.skip(pos as int), name@) is None,
        },
{
    match read_char(v, pos, ',') {
        Some(p) => read_named(v, p, name),
        None => None,
    }
}

/// Reads a comma, the member name `name` and a number with a fraction.
pub fn read_next_fixed(v: &Vec<char>, pos: usize, name: &str) -> (r: Option<(Fixed, usize)>)
    requires
        pos <= v.len(),
    ensures
        match r {
            Some((value, q)) => pos < q <= v.len() && next_fixed(v@.skip(pos as int), name@)
                == Some((value, v@.skip(q as int))),
            None => next_fixed(v@.skip(pos as int), name@) is None,
        },
{
    match read_next_named(v, pos, name) {
        Some(p) => read_fixed(v, p),
        None => None,
    }
}

/// Reads a comma, the member name `name` and a text.
pub fn read_next_text(v: &Vec<char>, pos: usize, name: &str) -> (r: Option<(String, usize)>)
    requires
        pos <= v.len(),
    ensures
        match r {
            Some((text, q)) => pos < q <= v.len() && next_text(v@.skip(pos as int), name@) == Some(
                (text@, v@.skip(q as int)),
            ),
            None => next_text(v@.skip(pos as int), name@) is None,
        },
{
    match read_next_named(v, pos, name) {
        Some(p) => read_string(v, p),
        None => None,
    }
}

fn read_pair(t: &Vec<char>, i: usize) -> (r: Option<u8>)
    requires
        i + 1 < t.len(),
    ensures
        r is Some == (is_digit(t@[i as int]) && is_digit(t@[i + 1])),
        r matches Some(n) ==> n == pair_at(t@, i as int) && n <= 99,
{
    match (to_digit_value(t[i]), to_digit_value(t[i + 1])) {
        (Some(a), Some(b)) => Some(a * 10 + b),
        _ => None,
    }
}

/// The moment that a text of the form `YYYY-MM-DDTHH:MM:SSZ` names.
#[verifier::spinoff_prover]
pub fn read_moment(text: &str) -> (r: Option<UtcDateTime>)
    ensures
        r == parse_iso(text@),
{
    reveal(parse_iso);
    let t = chars_of(text);
    if t.len() != 20 {
        return None;
    }
    if t[4] != '-' || t[7] != '-' || t[10] != 'T' || t[13] != ':' || t[16] != ':' || t[19] != 'Z' {
        return None;
    }
    let century = read_pair(&t, 0);
    let years = read_pair(&t, 2);
    let month = read_pair(&t, 5);
    let day = read_pair(&t, 8);
    let hour = read_pair(&t, 11);
    let minute = read_pair(&t, 14);
    let second = read_pair(&t, 17);
    match (century, years, month, day, hour, minute, second) {
        (Some(c), Some(y), Some(month), Some(day), Some(hour), Some(minute), Some(second)) => {
            let moment = UtcDateTime {
                year: (c as u16) * 100 + (y as u16),
                month,
                day,
                hour,
                minute,
                second,
            };
            if moment.is_valid() {
                Some(moment)
            } else {
                None
            }
        },
        _ => None,
    }
}

/// Reads the outcome whose first member is named `name`; `pos` is the place
/// after the colon of that member.
#[verifier::spinoff_prover]
pub fn read_body(v: &Vec<char>, pos: usize, name: &str) -> (r: Option<(ReadOutcome, usize)>)
    requires
        pos <= v.len(),
    ensures
        match r {
            Some((outcome, q)) => pos < q <= v.len() && parse_body(name@, v@.skip(pos as int))
                == Some((outcome, v@.skip(q as int))),
            None => parse_body(name@, v@.skip(pos as int)) is None,
        },
{
    reveal(parse_body);
    if same_text(name, "error") {
        let (label, q) = match read_string(v, pos) {
            Some(found) => found,
            None => {
                return None;
            },
        };
        proof {
            lemma_string_consumes(v@.skip(pos as int));
        }
        match FailureReason::from_name(label.as_str()) {
            Some(reason) => Some((ReadOutcome::Failure { reason }, q)),
            None => None,
        }
    } else if same_text(name, "lux") {
        let (lux, k1) = match read_fixed(v, pos) {
            Some(found) => found,
            None => {
                return None;
            },
        };
        let (label, q) = match read_next_text(v, k1, "condition") {
            Some(found) => found,
            None => {
                return None;
            },
        };
        match LightCondition::from_name(label.as_str()) {
            Some(condition) => Some(
                (
                    ReadOutcome::Measurement(
                        Measurement::Illuminance(BH1750SensorMeasurement { lux, condition }),
                    ),
                    q,
                ),
            ),
            None => None,
        }
    } else if same_text(name, "temperature") {
        let (temperature, k1) = match read_fixed(v, pos) {
            Some(found) => found,
            None => {
                return None;
            },
        };
        let (humidity, k2) = match read_next_fixed(v, k1, "humidity") {
            Some(found) => found,
            None => {
                return None;
            },
        };
        let (pressure, q) = match read_next_fixed(v, k2, "pressure") {
            Some(found) => found,
            None => {
                return None;
            },
        };
        Some(
            (
                ReadOutcome::Measurement(
                    Measurement::Atmosphere(
                        BME280SensorMeasurement { temperature, humidity, pressure },
                    ),
                ),
                q,
            ),
        )
    } else if same_text(name, "datetime") {
        let (text, q) = match read_string(v, pos) {
            Some(found) => found,
            None => {
                return None;
            },
        };
        proof {
            lemma_string_consumes(v@.skip(pos as int));
        }
        match read_moment(text.as_str()) {
            Some(datetime) => Some(
                (
                    ReadOutcome::Measurement(
                        Measurement::Clock(DS323XSensorMeasurement { datetime }),
                    ),
                    q,
                ),
            ),
            None => None,
        }
    } else if same_text(name, "distance_mm") {
        let (distance, k1) = match read_uint(v, pos) {
            Some(found) => found,
            None => {
                return None;
            },
        };
        if distance > u16::MAX as u128 {
            return None;
        }
        let (label, q) = match read_next_text(v, k1, "status") {
            Some(found) => found,
            None => {
                return None;
            },
        };
        match ProximityClass::from_name(label.as_str()) {
            Some(status) => Some(
                (
                    ReadOutcome::Measurement(
                        Measurement::Range(
                            VL53L0XSensorMeasurement { distance_mm: distance as u16, status },
                        ),
                    ),
                    q,
                ),
            ),
            None => None,
        }
    } else if same_text(name, "x") {
        let (x, k1) = match read_fixed(v, pos) {
            Some(found) => found,
            None => {
                return None;
            },
        };
        let (y, k2) = match read_next_fixed(v, k1, "y") {
            Some(found) => found,
            None => {
                return None;
            },
        };
        let (z, k3) = match read_next_fixed(v, k2, "z") {
            Some(found) => found,
            None => {
                return None;
            },
        };
        let (magnitude, k4) = match read_next_fixed(v, k3, "magnitude") {
            Some(found) => found,
            None => {
                return None;
            },
        };
        let (tilt, q) = match read_next_fixed(v, k4, "tilt") {
            Some(found) => found,
            None => {
                return None;
            },
        };
        Some(
            (
                ReadOutcome::Measurement(
                    Measurement::Acceleration(
                        LSM303DLHCMAGSensorMeasurement { x, y, z, magnitude, tilt },
                    ),
                ),
                q,
            ),
        )
    } else {
        None
    }
}

/// A JSON string takes up at least the two quotation marks.
pub proof fn lemma_string_consumes(s: Seq<char>)
    ensures
        parse_string(s) matches Some((_, rest)) ==> rest.len() < s.len(),
{
    if s.len() > 0 {
        lemma_tail_consumes(s.skip(1));
    }
}

/// What follows a JSON string is shorter than the string and what follows.
pub proof fn lemma_tail_consumes(s: Seq<char>)
    ensures
        string_tail(s) matches Some((_, rest)) ==> rest.len() < s.len(),
    decreases s.len(),
{
    if s.len() > 0 {
        if s[0] == '"' {
        } else if s[0] == '\\' {
            match unescape(s.skip(1)) {
                Some((c, n)) => {
                    if 1 <= n < s.len() {
                        lemma_tail_consumes(s.skip(1 + n));
                    }
                },
                None => {},
            }
        } else {
            lemma_tail_consumes(s.skip(1));
        }
    }
}

/// Reads the JSON object of an outcome at `pos`.
pub fn read_outcome(v: &Vec<char>, pos: usize) -> (r: Option<(ReadOutcome, usize)>)
    requires
        pos <= v.len(),
    ensures
        match r {
            Some((outcome, q)) => pos < q <= v.len() && parse_outcome(v@.skip(pos as int)) == Some(
                (outcome, v@.skip(q as int)),
            ),
            None => parse_outcome(v@.skip(pos as int)) is None,
        },
{
    reveal(parse_outcome);
    let k1 = match read_char(v, pos, '{') {
        Some(k1) => k1,
        None => {
            return None;
        },
    };
    let (name, k2) = match read_member(v, k1) {
        Some(found) => found,
        None => {
            return None;
        },
    };
    let (outcome, k3) = match read_body(v, k2, name.as_str()) {
        Some(found) => found,
        None => {
            return None;
        },
    };
    match read_char(v, k3, '}') {
        Some(q) => Some((outcome, q)),
        None => None,
    }
}

/// Reads a slot at `pos`.
pub fn read_slot(v: &Vec<char>, pos: usize) -> (r: Option<(Slot, usize)>)
    requires
        pos <= v.len(),
    ensures
        match r {
            Some((slot, q)) => pos < q <= v.len() && parse_slot(v@.skip(pos as int)) == Some(
                (slot, v@.skip(q as int)),
            ),
            None => parse_slot(v@.skip(pos as int)) is None,
        },
{
    reveal(parse_slot);
    let (key, k1) = match read_member(v, pos) {
        Some(found) => found,
        None => {
            return None;
        },
    };
    let kind = match SensorKind::from_name(key.as_str()) {
        Some(kind) => kind,
        None => {
            return None;
        },
    };
    match read_outcome(v, k1) {
        Some((outcome, q)) => Some((Slot { kind, outcome }, q)),
        None => None,
    }
}

/// Reads the slots at `pos`, one at least, with commas between them.
#[verifier::spinoff_prover]
pub fn read_slots(v: &Vec<char>, pos: usize) -> (r: Option<(Vec<Slot>, usize)>)
    requires
        pos <= v.len(),
    ensures
        match r {
            Some((data, q)) => pos < q <= v.len() && parse_slots(v@.skip(pos as int)) == Some(
                (data@, v@.skip(q as int)),
            ),
            None => parse_slots(v@.skip(pos as int)) is None,
        },
{
    let n = v.len();
    let mut data: Vec<Slot> = Vec::new();
    let mut p: usize = pos;
    loop
        invariant
            n == v.len(),
            pos <= p <= n,
            p == pos ==> data@.len() == 0,
            parse_slots(v@.skip(pos as int)) == (match parse_slots(v@.skip(p as int)) {
                Some((more, rest)) => Some((data@ + more, rest)),
                None => None,
            }),
        decreases n - p,
    {
        let (slot, q) = match read_slot(v, p) {
            Some(found) => found,
            None => {
                return None;
            },
        };
        let ghost here = v@.skip(p as int);
        let ghost after = v@.skip(q as int);
        assert(after.len() == n - q);
        if q < n && v[q] == ',' {
            proof {
                assert(after[0] == v@[q as int]);
                lemma_skip_skip(v@, q as int, 1);
                let tail = parse_slots(v@.skip(q + 1));
                if tail is Some {
                    assert(data@.push(slot) + tail.unwrap().0 =~= data@ + (seq![slot]
                        + tail.unwrap().0));
                }
            }
            data.push(slot);
            p = q + 1;
        } else {
            proof {
                if q < n {
                    assert(after[0] == v@[q as int]);
                }
                assert(data@.push(slot) =~= data@ + seq![slot]);
            }
            data.push(slot);
            return Some((data, q));
        }
    }
}

/// Reads the JSON object of the slots at `pos`.
pub fn read_data(v: &Vec<char>, pos: usize) -> (r: Option<(Vec<Slot>, usize)>)
    requires
        pos <= v.len(),
    ensures
        match r {
            Some((data, q)) => pos < q <= v.len() && parse_data(v@.skip(pos as int)) == Some(
                (data@, v@.skip(q as int)),
            ),
            None => parse_data(v@.skip(pos as int)) is None,
        },
{
    reveal(parse_data);
    let k1 = match read_char(v, pos, '{') {
        Some(k1) => k1,
        None => {
            return None;
        },
    };
    if k1 < v.len() && v[k1] == '}' {
        proof {
            assert(v@.skip(k1 as int)[0] == v@[k1 as int]);
            lemma_skip_skip(v@, k1 as int, 1);
        }
        return Some((Vec::new(), k1 + 1));
    }
    proof {
        if k1 < v.len() {
            assert(v@.skip(k1 as int)[0] == v@[k1 as int]);
        }
    }
    let (data, k2) = match read_slots(v, k1) {
        Some(found) => found,
        None => {
            return None;
        },
    };
    match read_char(v, k2, '}') {
        Some(q) => Some((data, q)),
        None => None,
    }
}

/// Reads the status, the message, the device and the location at the start
/// of a report.
#[verifier::spinoff_prover]
pub fn read_texts(v: &Vec<char>) -> (r: Option<(Head, usize)>)
    ensures
        match r {
            Some((head, q)) => q <= v.len() && parse_texts(v@) == Some((head@, v@.skip(q as int))),
            None => parse_texts(v@) is None,
        },
{
    reveal(parse_texts);
    assert(v@.skip(0) =~= v@);
    let k0 = match read_char(v, 0, '{') {
        Some(p) => p,
        None => {
            return None;
        },
    };
    let k1 = match read_named(v, k0, "status") {
        Some(p) => p,
        None => {
            return None;
        },
    };
    let (status, k2) = match read_string(v, k1) {
        Some(found) => found,
        None => {
            return None;
        },
    };
    let (_, k3) = match read_next_text(v, k2, "message") {
        Some(found) => found,
        None => {
            return None;
        },
    };
    let (device_urn, k4) = match read_next_text(v, k3, "device") {
        Some(found) => found,
        None => {
            return None;
        },
    };
    let (location_urn, q) = match read_next_text(v, k4, "location") {
        Some(found) => found,
        None => {
            return None;
        },
    };
    Some((Head { status, device_urn, location_urn, cycle_id: 0 }, q))
}

/// Reads the head of a report.
#[verifier::spinoff_prover]
pub fn read_head(v: &Vec<char>) -> (r: Option<(Head, usize)>)
    ensures
        match r {
            Some((head, q)) => q <= v.len() && parse_head(v@) == Some((head@, v@.skip(q as int))),
            None => parse_head(v@) is None,
        },
{
    reveal(parse_head);
    let (texts, k5) = match read_texts(v) {
        Some(found) => found,
        None => {
            return None;
        },
    };
    let k6 = match read_next_named(v, k5, "cycleId") {
        Some(p) => p,
        None => {
            return None;
        },
    };
    let (cycle_id, q) = match read_uint(v, k6) {
        Some(found) => found,
        None => {
            return None;
        },
    };
    if cycle_id > u64::MAX as u128 {
        return None;
    }
    Some(
        (
            Head {
                status: texts.status,
                device_urn: texts.device_urn,
                location_urn: texts.location_urn,
                cycle_id: cycle_id as u64,
            },
            q,
        ),
    )
}

impl SensingClientServiceResponseDTO {
    /// The report that a text in wire form stands for; `None` where the
    /// text is not a report in wire form.
    #[verifier::spinoff_prover]
    pub fn parse(text: &str) -> (r: Option<Self>)
        ensures
            match r {
                Some(report) => parse_report(text@) == Some(report@) && report@.wf(),
                None => parse_report(text@) is None,
            },
    {
        let v = chars_of(text);
        let (head, k7) = match read_head(&v) {
            Some(found) => found,
            None => {
                return None;
            },
        };
        let k8 = match read_next_named(&v, k7, "data") {
            Some(p) => p,
            None => {
                return None;
            },
        };
        let (data, k9) = match read_data(&v, k8) {
            Some(found) => found,
            None => {
                return None;
            },
        };
        if k9 >= v.len() || v.len() - k9 != 1 || v[k9] != '}' {
            proof {
                let rest = v@.skip(k9 as int);
                if rest == seq!['}'] {
                    assert(rest.len() == 1);
                    assert(rest[0] == v@[k9 as int]);
                }
            }
            return None;
        }
        assert(v@.skip(k9 as int) =~= seq!['}']);
        let report = SensingClientServiceResponseDTO {
            device_urn: head.device_urn,
            location_urn: head.location_urn,
            cycle_id: head.cycle_id,
            data,
        };
        let expected = if report.is_partial() {
            "partial"
        } else {
            "ok"
        };
        if same_text(head.status.as_str(), expected) && report.is_wf() {
            Some(report)
        } else {
            None
        }
    }
}

} // verus!
