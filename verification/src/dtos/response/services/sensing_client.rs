use crate::configurations::sensors::{distinct, has_kind};
use crate::dtos::measurement::base::{BaseMeasurementDTO, Measurement, ReadOutcome};
use crate::enums::kind::SensorKind;
use vstd::prelude::*;
use vstd::string::*;

verus! {

/// The place of one sensor in a report.
#[derive(Clone, Copy, Debug, PartialEq, Eq, Structural)]
pub struct Slot {
    pub kind: SensorKind,
    pub outcome: ReadOutcome,
}

/// The report of one cycle, under the name that the data model gives it.
pub type ReportRecord = SensingClientServiceResponseDTO;

/// The report of one cycle: which device made it and where, the number of
/// the cycle, and one outcome for each configured sensor, in the configured
/// order.
#[derive(Clone, Debug, PartialEq, Eq)]
pub struct SensingClientServiceResponseDTO {
    pub device_urn: String,
    pub location_urn: String,
    pub cycle_id: u64,
    pub data: Vec<Slot>,
}

/// A report as a mathematical value.
pub struct ReportView {
    pub device_urn: Seq<char>,
    pub location_urn: Seq<char>,
    pub cycle_id: u64,
    pub data: Seq<Slot>,
}

impl View for SensingClientServiceResponseDTO {
    type V = ReportView;

    open spec fn view(&self) -> ReportView {
        ReportView {
            device_urn: self.device_urn@,
            location_urn: self.location_urn@,
            cycle_id: self.cycle_id,
            data: self.data@,
        }
    }
}

/// The outcome in the first slot of a part, where there is such a slot.
pub open spec fn first_outcome(data: Seq<Slot>, kind: SensorKind) -> Option<ReadOutcome>
    decreases data.len(),
{
    if data.len() == 0 {
        None
    } else if data[0].kind == kind {
        Some(data[0].outcome)
    } else {
        first_outcome(data.drop_first(), kind)
    }
}

/// The number of slots that hold a failure.
pub open spec fn failures(data: Seq<Slot>) -> nat
    decreases data.len(),
{
    if data.len() == 0 {
        0
    } else {
        failures(data.drop_last()) + if data.last().outcome is Failure {
            1nat
        } else {
            0nat
        }
    }
}

/// A list of slots has no failure exactly if none of its slots holds one.
pub proof fn lemma_failures_none(data: Seq<Slot>)
    ensures
        failures(data) <= data.len(),
        failures(data) == 0 <==> forall|i: int| 0 <= i < data.len() ==> !((#[trigger] data[i]).outcome is Failure),
    decreases data.len(),
{
    if data.len() > 0 {
        lemma_failures_none(data.drop_last());
        if failures(data) == 0 {
            assert forall|i: int| 0 <= i < data.len() implies !((#[trigger] data[i]).outcome is Failure) by {
                if i < data.len() - 1 {
                    assert(data.drop_last()[i] == data[i]);
                }
            }
        } else if !(data.last().outcome is Failure) {
            let i = choose|i: int| 0 <= i < data.len() - 1 && (#[trigger] data.drop_last()[i]).outcome is Failure;
            assert(data[i] == data.drop_last()[i]);
        }
    }
}

impl ReportView {
    /// The parts of the report's slots, in their order.
    pub open spec fn kinds(self) -> Seq<SensorKind> {
        Seq::new(self.data.len(), |i: int| self.data[i].kind)
    }

    /// Whether some slot holds a failure.
    pub open spec fn partial(self) -> bool {
        failures(self.data) > 0
    }

    /// No part has two slots, and every outcome keeps the rule of its kind.
    pub open spec fn wf(self) -> bool {
        &&& distinct(self.kinds())
        &&& forall|i: int| 0 <= i < self.data.len() ==> (#[trigger] self.data[i]).outcome.wf()
    }
}

impl SensingClientServiceResponseDTO {
    /// The number of slots that hold a failure.
    pub fn failure_count(&self) -> (n: usize)
        ensures
            n == failures(self@.data),
    {
        let mut n: usize = 0;
        let mut i: usize = 0;
        while i < self.data.len()
            invariant
                i <= self.data@.len(),
                n == failures(self.data@.take(i as int)),
                n <= i,
            decreases self.data@.len() - i,
        {
            assert(self.data@.take(i + 1).drop_last() =~= self.data@.take(i as int));
            if self.data[i].outcome.is_failure() {
                n = n + 1;
            }
            i = i + 1;
        }
        assert(self.data@.take(i as int) =~= self.data@);
        n
    }

    /// Whether no part has two slots and every outcome keeps the rule of
    /// its kind.
    pub fn is_wf(&self) -> (r: bool)
        ensures
            r == self@.wf(),
    {
        let mut seen: Vec<SensorKind> = Vec::new();
        let mut i: usize = 0;
        while i < self.data.len()
            invariant
                i <= self.data@.len(),
                seen@ == self@.kinds().take(i as int),
                distinct(seen@),
                forall|j: int| 0 <= j < i ==> (#[trigger] self@.data[j]).outcome.wf(),
            decreases self.data@.len() - i,
        {
            let slot = &self.data[i];
            if has_kind(&seen, slot.kind) {
                proof {
                    let j = choose|j: int| 0 <= j < seen@.len() && seen@[j] == slot.kind;
                    assert(self@.kinds()[j] == self@.kinds()[i as int]);
                }
                return false;
            }
            if !slot.outcome.is_wf() {
                return false;
            }
            seen.push(slot.kind);
            assert(seen@ =~= self@.kinds().take(i + 1));
            i = i + 1;
        }
        assert(self@.kinds().take(i as int) =~= self@.kinds());
        true
    }

    /// Whether some slot holds a failure.
    pub fn is_partial(&self) -> (r: bool)
        ensures
            r == self@.partial(),
    {
        self.failure_count() > 0
    }

    /// The outcome of a part, where the report has a slot for it.
    pub fn outcome_of(&self, kind: SensorKind) -> (r: Option<ReadOutcome>)
        ensures
            r == first_outcome(self@.data, kind),
    {
        let mut i: usize = 0;
        assert(self@.data.skip(0) =~= self@.data);
        while i < self.data.len()
            invariant
                i <= self.data@.len(),
                first_outcome(self@.data, kind) == first_outcome(self@.data.skip(i as int), kind),
            decreases self.data@.len() - i,
        {
            assert(self.data@.skip(i as int)[0] == self.data@[i as int]);
            assert(self.data@.skip(i as int).drop_first() =~= self.data@.skip(i + 1));
            if self.data[i].kind == kind {
                return Some(self.data[i].outcome);
            }
            i = i + 1;
        }
        None
    }

    /// The illuminance of the BH1750 and the atmosphere of the BME280, where
    /// the report holds them as measurements.
    pub fn base(&self) -> (r: BaseMeasurementDTO)
        ensures
            r.bh1750 == (match first_outcome(self@.data, SensorKind::Bh1750) {
                Some(ReadOutcome::Measurement(Measurement::Illuminance(m))) => Some(m),
                _ => None,
            }),
            r.bme280 == (match first_outcome(self@.data, SensorKind::Bme280) {
                Some(ReadOutcome::Measurement(Measurement::Atmosphere(m))) => Some(m),
                _ => None,
            }),
    {
        let bh1750 = match self.outcome_of(SensorKind::Bh1750) {
            Some(ReadOutcome::Measurement(Measurement::Illuminance(m))) => Some(m),
            _ => None,
        };
        let bme280 = match self.outcome_of(SensorKind::Bme280) {
            Some(ReadOutcome::Measurement(Measurement::Atmosphere(m))) => Some(m),
            _ => None,
        };
        BaseMeasurementDTO { bh1750, bme280 }
    }
}

} // verus!
