use crate::dtos::measurement::base::{Measurement, ReadOutcome};
use crate::dtos::response::services::sensing_client::{
    failures,
    ReportView,
    SensingClientServiceResponseDTO,
    Slot,
};
use crate::values::digits::{decimal, push_decimal};
use crate::values::fixed::Fixed;
use crate::values::text::push_char;
use crate::wire::json::{push_quoted, quoted};
use crate::wire::number::{fixed_text, push_fixed};
use vstd::prelude::*;
use vstd::string::*;

verus! {

/// A member name with its colon, followed by `rest`.
#[verifier::opaque]
pub open spec fn member(name: Seq<char>, rest: Seq<char>) -> Seq<char> {
    quoted(name) + (seq![':'] + rest)
}

/// A member whose value is a number with a fraction, followed by `rest`.
pub open spec fn fixed_member(name: Seq<char>, v: Fixed, rest: Seq<char>) -> Seq<char> {
    member(name, fixed_text(v) + rest)
}

/// A member whose value is a text, followed by `rest`.
pub open spec fn text_member(name: Seq<char>, v: Seq<char>, rest: Seq<char>) -> Seq<char> {
    member(name, quoted(v) + rest)
}

/// A member whose value is a whole number, followed by `rest`.
pub open spec fn number_member(name: Seq<char>, n: nat, rest: Seq<char>) -> Seq<char> {
    member(name, decimal(n) + rest)
}

/// A measurement as a JSON object, followed by `rest`.
#[verifier::opaque]
pub open spec fn measurement_then(m: Measurement, rest: Seq<char>) -> Seq<char> {
    match m {
        Measurement::Illuminance(x) => seq!['{'] + fixed_member(
            "lux"@,
            x.lux,
            seq![','] + text_member("condition"@, x.condition.label(), seq!['}'] + rest),
        ),
        Measurement::Atmosphere(x) => seq!['{'] + fixed_member(
            "temperature"@,
            x.temperature,
            seq![','] + fixed_member(
                "humidity"@,
                x.humidity,
                seq![','] + fixed_member("pressure"@, x.pressure, seq!['}'] + rest),
            ),
        ),
        Measurement::Clock(x) => seq!['{'] + text_member(
            "datetime"@,
            x.datetime.iso_text(),
            seq!['}'] + rest,
        ),
        Measurement::Range(x) => seq!['{'] + number_member(
            "distance_mm"@,
            x.distance_mm as nat,
            seq![','] + text_member("status"@, x.status.label(), seq!['}'] + rest),
        ),
        Measurement::Acceleration(x) => seq!['{'] + fixed_member(
            "x"@,
            x.x,
            seq![','] + fixed_member(
                "y"@,
                x.y,
                seq![','] + fixed_member(
                    "z"@,
                    x.z,
                    seq![','] + fixed_member(
                        "magnitude"@,
                        x.magnitude,
                        seq![','] + fixed_member("tilt"@, x.tilt, seq!['}'] + rest),
                    ),
                ),
            ),
        ),
    }
}

/// An outcome as a JSON object, followed by `rest`: the measurement, or the
/// name of the failure under `error`.
pub open spec fn outcome_then(outcome: ReadOutcome, rest: Seq<char>) -> Seq<char> {
    match outcome {
        ReadOutcome::Measurement(m) => measurement_then(m, rest),
        ReadOutcome::Failure { reason } => seq!['{'] + text_member(
            "error"@,
            reason.label(),
            seq!['}'] + rest,
        ),
    }
}

/// A slot as a member of the report's data, followed by `rest`: the key of
/// the sensor and its outcome.
pub open spec fn slot_then(slot: Slot, rest: Seq<char>) -> Seq<char> {
    member(slot.kind.key(), outcome_then(slot.outcome, rest))
}

/// The slots of a report, with commas between them, followed by `rest`.
pub open spec fn slots_then(data: Seq<Slot>, rest: Seq<char>) -> Seq<char>
    decreases data.len(),
{
    if data.len() == 0 {
        rest
    } else if data.len() == 1 {
        slot_then(data[0], rest)
    } else {
        slot_then(data[0], seq![','] + slots_then(data.drop_first(), rest))
    }
}

/// The slots from position `from` on as they stand in a list of slots, with
/// the comma before the first of them where it is not the first of the
/// list, followed by `rest`.
pub open spec fn slots_from(data: Seq<Slot>, from: int, rest: Seq<char>) -> Seq<char> {
    if from >= data.len() {
        rest
    } else if from == 0 {
        slots_then(data, rest)
    } else {
        seq![','] + slots_then(data.skip(from), rest)
    }
}

/// The status of a report: `partial` where a slot holds a failure, `ok`
/// otherwise.
pub open spec fn status_text(data: Seq<Slot>) -> Seq<char> {
    if failures(data) > 0 {
        "partial"@
    } else {
        "ok"@
    }
}

/// The message of a report, for a human reader.
pub open spec fn message_text(data: Seq<Slot>) -> Seq<char> {
    if failures(data) > 0 {
        decimal(failures(data)) + " of "@ + decimal(data.len()) + " sensors failed"@
    } else {
        "all sensors read"@
    }
}

/// What stands in a report after the number of its cycle, followed by
/// `rest`: the slots, and the end of the report.
pub open spec fn data_then(data: Seq<Slot>, rest: Seq<char>) -> Seq<char> {
    seq![','] + member("data"@, seq!['{'] + slots_then(data, seq!['}'] + (seq!['}'] + rest)))
}

/// A report in its wire form, followed by `rest`.
#[verifier::opaque]
pub open spec fn report_then(r: ReportView, rest: Seq<char>) -> Seq<char> {
    seq!['{'] + text_member(
        "status"@,
        status_text(r.data),
        seq![','] + text_member(
            "message"@,
            message_text(r.data),
            seq![','] + text_member(
                "device"@,
                r.device_urn,
                seq![','] + text_member(
                    "location"@,
                    r.location_urn,
                    seq![','] + number_member(
                        "cycleId"@,
                        r.cycle_id as nat,
                        data_then(r.data, rest),
                    ),
                ),
            ),
        ),
    )
}

/// A report in its wire form.
pub open spec fn report_text(r: ReportView) -> Seq<char> {
    report_then(r, Seq::empty())
}

/// A text followed by a piece and a rest is the text with the piece at its
/// end, followed by the rest.
pub proof fn lemma_wrote(before: Seq<char>, piece: Seq<char>, rest: Seq<char>)
    ensures
        before + (piece + rest) == (before + piece) + rest,
{
    assert(before + (piece + rest) =~= (before + piece) + rest);
}

/// Appends a character. Like all writers below, it says what it appends
/// in terms of whatever text `r` may follow: the text before the call,
/// followed by the piece and `r`, is the text after the call followed by
/// `r`. Stated so, the pieces of a longer text chain without being put in
/// brackets anew.
fn emit_char(out: &mut String, c: char)
    ensures
        forall|r: Seq<char>| old(out)@ + (#[trigger] (seq![c] + r)) == final(out)@ + r,
{
    push_char(out, c);
    assert forall|r: Seq<char>| old(out)@ + (#[trigger] (seq![c] + r)) == out@ + r by {
        lemma_wrote(old(out)@, seq![c], r);
        assert(old(out)@ + seq![c] =~= old(out)@.push(c));
    }
}

/// Appends a text as a JSON string.
fn emit_quoted(out: &mut String, s: &str)
    ensures
        forall|r: Seq<char>| old(out)@ + (#[trigger] (quoted(s@) + r)) == final(out)@ + r,
{
    push_quoted(out, s);
    assert forall|r: Seq<char>| old(out)@ + (#[trigger] (quoted(s@) + r)) == out@ + r by {
        lemma_wrote(old(out)@, quoted(s@), r);
    }
}

/// Appends a reading as a JSON number.
fn emit_fixed(out: &mut String, v: Fixed)
    ensures
        forall|r: Seq<char>| old(out)@ + (#[trigger] (fixed_text(v) + r)) == final(out)@ + r,
{
    push_fixed(out, v);
    assert forall|r: Seq<char>| old(out)@ + (#[trigger] (fixed_text(v) + r)) == out@ + r by {
        lemma_wrote(old(out)@, fixed_text(v), r);
    }
}

/// Appends a whole number in decimal.
fn emit_decimal(out: &mut String, n: u64)
    ensures
        forall|r: Seq<char>| old(out)@ + (#[trigger] (decimal(n as nat) + r)) == final(out)@ + r,
{
    push_decimal(out, n);
    assert forall|r: Seq<char>| old(out)@ + (#[trigger] (decimal(n as nat) + r)) == out@ + r by {
        lemma_wrote(old(out)@, decimal(n as nat), r);
    }
}

/// Appends a member name with its colon.
fn emit_member(out: &mut String, name: &str)
    ensures
        forall|r: Seq<char>| old(out)@ + #[trigger] member(name@, r) == final(out)@ + r,
{
    reveal(member);
    emit_quoted(out, name);
    emit_char(out, ':');
}

/// Appends a member whose value is a reading.
fn emit_fixed_member(out: &mut String, name: &str, v: Fixed)
    ensures
        forall|r: Seq<char>| old(out)@ + #[trigger] fixed_member(name@, v, r) == final(out)@ + r,
{
    emit_member(out, name);
    emit_fixed(out, v);
}

/// Appends a member whose value is a text.
fn emit_text_member(out: &mut String, name: &str, v: &str)
    ensures
        forall|r: Seq<char>| old(out)@ + #[trigger] text_member(name@, v@, r) == final(out)@ + r,
{
    emit_member(out, name);
    emit_quoted(out, v);
}

/// Appends a member whose value is a whole number.
fn emit_number_member(out: &mut String, name: &str, n: u64)
    ensures
        forall|r: Seq<char>|
            old(out)@ + #[trigger] number_member(name@, n as nat, r) == final(out)@ + r,
{
    emit_member(out, name);
    emit_decimal(out, n);
}

/// Appends a measurement as a JSON object.
#[verifier::spinoff_prover]
fn emit_measurement(out: &mut String, m: &Measurement)
    ensures
        forall|r: Seq<char>| old(out)@ + #[trigger] measurement_then(*m, r) == final(out)@ + r,
{
    reveal(measurement_then);
    emit_char(out, '{');
    match m {
        Measurement::Illuminance(x) => {
            emit_fixed_member(out, "lux", x.lux);
            emit_char(out, ',');
            emit_text_member(out, "condition", x.condition.name());
        },
        Measurement::Atmosphere(x) => {
            emit_fixed_member(out, "temperature", x.temperature);
            emit_char(out, ',');
            emit_fixed_member(out, "humidity", x.humidity);
            emit_char(out, ',');
            emit_fixed_member(out, "pressure", x.pressure);
        },
        Measurement::Clock(x) => {
            let moment = x.datetime.iso8601();
            emit_text_member(out, "datetime", moment.as_str());
        },
        Measurement::Range(x) => {
            emit_number_member(out, "distance_mm", x.distance_mm as u64);
            emit_char(out, ',');
            emit_text_member(out, "status", x.status.name());
        },
        Measurement::Acceleration(x) => {
            emit_fixed_member(out, "x", x.x);
            emit_char(out, ',');
            emit_fixed_member(out, "y", x.y);
            emit_char(out, ',');
            emit_fixed_member(out, "z", x.z);
            emit_char(out, ',');
            emit_fixed_member(out, "magnitude", x.magnitude);
            emit_char(out, ',');
            emit_fixed_member(out, "tilt", x.tilt);
        },
    }
    emit_char(out, '}');
}

/// Appends an outcome as a JSON object.
#[verifier::spinoff_prover]
fn emit_outcome(out: &mut String, outcome: &ReadOutcome)
    ensures
        forall|r: Seq<char>| old(out)@ + #[trigger] outcome_then(*outcome, r) == final(out)@ + r,
{
    match outcome {
        ReadOutcome::Measurement(m) => {
            emit_measurement(out, m);
        },
        ReadOutcome::Failure { reason } => {
            emit_char(out, '{');
            emit_text_member(out, "error", reason.name());
            emit_char(out, '}');
        },
    }
}

/// Appends a slot as a member of the report's data.
fn emit_slot(out: &mut String, slot: &Slot)
    ensures
        forall|r: Seq<char>| old(out)@ + #[trigger] slot_then(*slot, r) == final(out)@ + r,
{
    emit_member(out, slot.kind.report_key());
    emit_outcome(out, &slot.outcome);
}

/// The slots from a position on are the slot at that position and the slots
/// from the next position on.
pub proof fn lemma_slots_from_step(data: Seq<Slot>, from: int, rest: Seq<char>)
    requires
        0 <= from < data.len(),
    ensures
        slots_from(data, from, rest) == (if from == 0 {
            slot_then(data[from], slots_from(data, from + 1, rest))
        } else {
            seq![','] + slot_then(data[from], slots_from(data, from + 1, rest))
        }),
{
    let here = data.skip(from);
    assert(here[0] == data[from]);
    assert(here.drop_first() =~= data.skip(from + 1));
    if from == 0 {
        assert(here =~= data);
    }
}

/// Appends the slots of a report, with commas between them.
#[verifier::spinoff_prover]
fn emit_slots(out: &mut String, data: &Vec<Slot>)
    ensures
        forall|r: Seq<char>| old(out)@ + #[trigger] slots_then(data@, r) == final(out)@ + r,
{
    let mut i: usize = 0;
    while i < data.len()
        invariant
            i <= data@.len(),
            forall|r: Seq<char>| old(out)@ + #[trigger] slots_from(data@, 0, r) == out@ + slots_from(
                data@,
                i as int,
                r,
            ),
        decreases data@.len() - i,
    {
        let ghost before = out@;
        if i > 0 {
            emit_char(out, ',');
        }
        let ghost middle = out@;
        emit_slot(out, &data[i]);
        assert forall|r: Seq<char>| old(out)@ + #[trigger] slots_from(data@, 0, r) == out@
            + slots_from(data@, i + 1, r) by {
            lemma_slots_from_step(data@, i as int, r);
            let next = slots_from(data@, i + 1, r);
            assert(middle + slot_then(data@[i as int], next) == out@ + next);
            if i > 0 {
                assert(before + (seq![','] + slot_then(data@[i as int], next)) == middle
                    + slot_then(data@[i as int], next));
            }
        }
        i = i + 1;
    }
    assert forall|r: Seq<char>| old(out)@ + #[trigger] slots_then(data@, r) == out@ + r by {
        assert(slots_from(data@, 0, r) == slots_then(data@, r));
        assert(slots_from(data@, i as int, r) == r);
    }
}

impl SensingClientServiceResponseDTO {
    /// The status of the report: `partial` where a slot holds a failure,
    /// `ok` otherwise.
    pub fn status(&self) -> (s: &'static str)
        ensures
            s@ == status_text(self@.data),
    {
        if self.is_partial() {
            "partial"
        } else {
            "ok"
        }
    }

    /// The message of the report, for a human reader.
    pub fn message(&self) -> (s: String)
        ensures
            s@ == message_text(self@.data),
    {
        let failed = self.failure_count();
        let mut s = String::new();
        if failed > 0 {
            push_decimal(&mut s, failed as u64);
            s.append(" of ");
            push_decimal(&mut s, self.data.len() as u64);
            s.append(" sensors failed");
            assert(s@ =~= message_text(self@.data));
        } else {
            s.append("all sensors read");
            assert(s@ =~= message_text(self@.data));
        }
        s
    }

    /// Appends the report in its wire form.
    #[verifier::spinoff_prover]
    fn emit(&self, out: &mut String)
        ensures
            forall|r: Seq<char>| old(out)@ + #[trigger] report_then(self@, r) == final(out)@ + r,
    {
        reveal(report_then);
        emit_char(out, '{');
        emit_text_member(out, "status", self.status());
        emit_char(out, ',');
        let message = self.message();
        emit_text_member(out, "message", message.as_str());
        emit_char(out, ',');
        emit_text_member(out, "device", self.device_urn.as_str());
        emit_char(out, ',');
        emit_text_member(out, "location", self.location_urn.as_str());
        emit_char(out, ',');
        emit_number_member(out, "cycleId", self.cycle_id);
        emit_char(out, ',');
        emit_member(out, "data");
        emit_char(out, '{');
        emit_slots(out, &self.data);
        emit_char(out, '}');
        emit_char(out, '}');
    }

    /// The report in its wire form.
    pub fn serialize(&self) -> (s: String)
        ensures
            s@ == report_text(self@),
    {
        let mut s = String::new();
        self.emit(&mut s);
        proof {
            let none = Seq::<char>::empty();
            assert(none + report_then(self@, none) == s@ + none);
            assert(none + report_then(self@, none) =~= report_then(self@, none));
            assert(s@ + none =~= s@);
        }
        s
    }
}

} // verus!
