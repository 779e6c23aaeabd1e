use crate::abstractions::sensor::ISensor;
use crate::abstractions::utility::IUtility;
use crate::bus::{within_limit, BusArbiter, Timed};
use crate::configurations::sensors::{
    kinds_have_key,
    lemma_selection_distinct,
    lemma_selection_keys,
    names_have_key,
    selection,
    SensorsConfig,
};
use crate::dtos::configurations::sensors::SensorsConfigDTO;
use crate::dtos::measurement::base::ReadOutcome;
use crate::dtos::measurement::sample::{Exchange, Sample};
use crate::dtos::response::services::sensing_client::{
    failures,
    lemma_failures_none,
    ReportView,
    SensingClientServiceResponseDTO,
    Slot,
};
use crate::enums::error::SensingError;
use crate::enums::failure::FailureReason;
use crate::enums::kind::SensorKind;
use crate::factories::sensor::SensorFactory;
use crate::sensors::driver::{exchange_under, lemma_reading_by_kind, reading_of, SensorDriver};
use crate::identity::{check_identity, identity_ok};
use vstd::prelude::*;
use vstd::string::*;

verus! {

/// The orchestrator: it gathers one report per cycle from the configured
/// sensors.
pub struct SensingClientService {
    pub urn: String,
    pub device_urn: String,
    pub location_urn: String,
    pub config: SensorsConfigDTO,
    pub factory: SensorFactory,
    /// The number that the next cycle will bear.
    pub cycles: u64,
}

/// A cycle under way: the report as far as it has come.
pub struct Cycle {
    pub report: SensingClientServiceResponseDTO,
}

/// The slot of a part whose exchange ended (`Some`), or whose exchange was
/// cut off by the cycle's deadline (`None`): the first holds what the
/// part's driver makes of the exchange, the second a timeout.
pub open spec fn slot_of(kind: SensorKind, exchange: Option<Exchange>) -> Slot {
    Slot {
        kind,
        outcome: match exchange {
            Some(e) => ReadOutcome::of(reading_of(kind, e)),
            None => ReadOutcome::Failure { reason: FailureReason::Timeout },
        },
    }
}

/// The slots of a cycle over `kinds` in which the exchanges in `completed`
/// ended before the deadline, in the order of the parts: one slot for each
/// part, a timeout for each part beyond the completed ones.
pub open spec fn slots(kinds: Seq<SensorKind>, completed: Seq<Exchange>) -> Seq<Slot> {
    Seq::new(
        kinds.len(),
        |i: int|
            slot_of(
                kinds[i],
                if i < completed.len() {
                    Some(completed[i])
                } else {
                    None
                },
            ),
    )
}

/// The number of exchanges that end within `budget` milliseconds, where
/// they take place one after the other and last as long as `durations`
/// says: the exchanges before the first one that would end too late.
pub open spec fn in_time(budget: int, durations: Seq<u64>) -> nat
    decreases durations.len(),
{
    if durations.len() == 0 || durations[0] > budget {
        0
    } else {
        1 + in_time(budget - durations[0], durations.drop_first())
    }
}

/// How long each of a list of exchanges took.
pub open spec fn durations(timed: Seq<Timed<Exchange>>) -> Seq<u64> {
    Seq::new(timed.len(), |i: int| timed[i].elapsed_ms)
}

/// The first `n` of a list of exchanges, without their durations.
pub open spec fn first_exchanges(timed: Seq<Timed<Exchange>>, n: nat) -> Seq<Exchange> {
    Seq::new(n, |i: int| timed[i].value)
}

/// What is left of `budget` milliseconds after exchanges that lasted as long
/// as `durations` says.
pub open spec fn budget_left(budget: int, durations: Seq<u64>) -> int
    decreases durations.len(),
{
    if durations.len() == 0 {
        budget
    } else {
        budget_left(budget - durations[0], durations.drop_first())
    }
}

/// Where all of a list of exchanges end in time, one more exchange ends in
/// time exactly if it lasts no longer than what is left of the budget.
pub proof fn lemma_in_time_push(budget: int, durations: Seq<u64>, next: u64)
    requires
        in_time(budget, durations) == durations.len(),
    ensures
        in_time(budget, durations.push(next)) == (if next <= budget_left(budget, durations) {
            durations.len() + 1
        } else {
            durations.len()
        }),
    decreases durations.len(),
{
    let grown = durations.push(next);
    if durations.len() == 0 {
        assert(grown.drop_first() =~= Seq::<u64>::empty());
        assert(in_time(budget - next, Seq::<u64>::empty()) == 0);
    } else {
        assert(grown.drop_first() =~= durations.drop_first().push(next));
        lemma_in_time_push(budget - durations[0], durations.drop_first(), next);
    }
}

/// An exchange uses up the time that it lasts.
pub proof fn lemma_budget_left_push(budget: int, durations: Seq<u64>, next: u64)
    ensures
        budget_left(budget, durations.push(next)) == budget_left(budget, durations) - next,
    decreases durations.len(),
{
    let grown = durations.push(next);
    if durations.len() == 0 {
        assert(grown.drop_first() =~= Seq::<u64>::empty());
        assert(budget_left(budget - next, Seq::<u64>::empty()) == budget - next);
    } else {
        assert(grown.drop_first() =~= durations.drop_first().push(next));
        lemma_budget_left_push(budget - durations[0], durations.drop_first(), next);
    }
}

/// Whether `timed` is what a cycle over `kinds` may have seen of `probe`:
/// an exchange with the first part, one with the second, and so on.
pub open spec fn probed<F: Fn(SensorKind) -> Timed<Exchange>>(
    probe: &F,
    kinds: Seq<SensorKind>,
    timed: Seq<Timed<Exchange>>,
) -> bool {
    &&& timed.len() <= kinds.len()
    &&& forall|i: int| 0 <= i < timed.len() ==> call_ensures(probe, (kinds[i],), #[trigger] timed[i])
}

/// The exchanges of `timed` that end before a deadline of `deadline_ms`
/// milliseconds, each as it counts under a bus that may be held for
/// `limit_ms` milliseconds.
pub open spec fn completed_under(timed: Seq<Timed<Exchange>>, deadline_ms: u64, limit_ms: u64) -> Seq<
    Exchange,
> {
    Seq::new(
        in_time(deadline_ms as int, durations(timed)),
        |i: int| exchange_under(timed[i], limit_ms),
    )
}

/// No more exchanges end in time than there are.
pub proof fn lemma_in_time_bound(budget: int, durations: Seq<u64>)
    ensures
        in_time(budget, durations) <= durations.len(),
    decreases durations.len(),
{
    if durations.len() > 0 && durations[0] <= budget {
        lemma_in_time_bound(budget - durations[0], durations.drop_first());
    }
}

/// The number of the cycle after the one numbered `id`. Numbers never go
/// back; the last one that can be held is kept.
pub open spec fn next_cycle(id: u64) -> u64 {
    if id < u64::MAX {
        (id + 1) as u64
    } else {
        id
    }
}

/// What stands in the way of an orchestrator with these names and this
/// configuration: an empty name first, then the first configured name that
/// the catalog does not know.
pub open spec fn boot_fault(
    urn: Seq<char>,
    device_urn: Seq<char>,
    location_urn: Seq<char>,
    names: Seq<Seq<char>>,
) -> Option<SensingError> {
    if !identity_ok(urn, device_urn, location_urn) {
        Some(SensingError::EmptyUrn)
    } else {
        match selection(names) {
            Ok(_) => None,
            Err(e) => Some(e),
        }
    }
}

impl Cycle {
    /// Whether every configured sensor has its slot.
    pub open spec fn complete(&self, service: &SensingClientService) -> bool {
        self.report@.data.len() == service.factory.kinds().len()
    }

    /// Whether the cycle belongs to `service`: its report bears the
    /// device and location of the service and holds slots for the first of
    /// the configured sensors, in their order.
    pub open spec fn follows(&self, service: &SensingClientService) -> bool {
        &&& self.report@.device_urn == service.device_urn@
        &&& self.report@.location_urn == service.location_urn@
        &&& self.report@.data.len() <= service.factory.kinds().len()
        &&& self.report@.kinds() == service.factory.kinds().take(self.report@.data.len() as int)
        &&& forall|i: int|
            0 <= i < self.report@.data.len() ==> (#[trigger] self.report@.data[i]).outcome.wf()
    }
}

impl SensingClientService {
    /// The registry holds the drivers that the configuration selects and
    /// shares the orchestrator's names.
    pub open spec fn wf(&self) -> bool {
        &&& self.factory.wf()
        &&& self.factory.urn@ == self.urn@
        &&& self.factory.device_urn@ == self.device_urn@
        &&& self.factory.location_urn@ == self.location_urn@
        &&& selection(self.config.names()) == Ok::<Seq<SensorKind>, SensingError>(
            self.factory.kinds(),
        )
    }

    /// The report of the cycle numbered `cycle_id` in which the exchanges in
    /// `completed` ended before the deadline.
    pub open spec fn report_of(&self, cycle_id: u64, completed: Seq<Exchange>) -> ReportView {
        ReportView {
            device_urn: self.device_urn@,
            location_urn: self.location_urn@,
            cycle_id,
            data: slots(self.factory.kinds(), completed),
        }
    }

    /// The configuration as it was given.
    pub fn config(&self) -> (r: &SensorsConfigDTO)
        ensures
            *r == self.config,
    {
        &self.config
    }

    /// The orchestrator named `urn` on the given device and location, with a
    /// registry of the configured sensors. No name may be empty, and the
    /// catalog must know every configured sensor.
    pub fn new(urn: String, device_urn: String, location_urn: String, config: SensorsConfigDTO) -> (r:
        Result<Self, SensingError>)
        ensures
            match r {
                Ok(s) => s.wf() && s.urn == urn && s.device_urn == device_urn && s.location_urn
                    == location_urn && s.config == config && s.cycles == 0,
                Err(e) => Some(e) == boot_fault(
                    urn@,
                    device_urn@,
                    location_urn@,
                    config.names(),
                ),
            },
    {
        if !check_identity(urn.as_str(), device_urn.as_str(), location_urn.as_str()) {
            return Err(SensingError::EmptyUrn);
        }
        let selected = match SensorsConfig::from_dto(&config) {
            Ok(selected) => selected,
            Err(e) => {
                return Err(e);
            },
        };
        let factory = match SensorFactory::new(
            urn.clone(),
            device_urn.clone(),
            location_urn.clone(),
            &selected,
        ) {
            Ok(factory) => factory,
            Err(e) => {
                return Err(e);
            },
        };
        Ok(SensingClientService { urn, device_urn, location_urn, config, factory, cycles: 0 })
    }

    /// Starts a cycle: an empty report that bears the device, the location
    /// and the number of the cycle.
    pub fn begin(&mut self) -> (cycle: Cycle)
        requires
            old(self).wf(),
        ensures
            final(self).wf(),
            final(self).urn == old(self).urn,
            final(self).device_urn == old(self).device_urn,
            final(self).location_urn == old(self).location_urn,
            final(self).config == old(self).config,
            final(self).factory == old(self).factory,
            final(self).cycles == next_cycle(old(self).cycles),
            cycle.follows(final(self)),
            cycle.report@.cycle_id == old(self).cycles,
            cycle.report@.data.len() == 0,
    {
        let cycle_id = self.cycles;
        if self.cycles < u64::MAX {
            self.cycles = self.cycles + 1;
        }
        let report = SensingClientServiceResponseDTO {
            device_urn: self.device_urn.clone(),
            location_urn: self.location_urn.clone(),
            cycle_id,
            data: Vec::new(),
        };
        assert(report@.kinds() =~= self.factory.kinds().take(0));
        Cycle { report }
    }

    /// The driver to read next, or `None` where every sensor has its slot.
    pub fn pending(&self, cycle: &Cycle) -> (r: Option<&SensorDriver>)
        requires
            self.wf(),
            cycle.follows(self),
        ensures
            r is None == cycle.complete(self),
            r matches Some(d) ==> *d == self.factory.store@[cycle.report@.data.len() as int],
    {
        let i = cycle.report.data.len();
        if i < self.factory.len() {
            Some(self.factory.driver(i))
        } else {
            None
        }
    }

    /// Takes in the outcome of the exchange with the pending sensor: its
    /// slot holds what the sensor's driver makes of the exchange, be it a
    /// measurement or a failure, and the cycle goes on.
    #[verifier::spinoff_prover]
    pub fn submit(&self, cycle: &mut Cycle, exchange: Exchange)
        requires
            self.wf(),
            old(cycle).follows(self),
            !old(cycle).complete(self),
        ensures
            final(cycle).follows(self),
            final(cycle).report@ == (ReportView {
                data: old(cycle).report@.data.push(
                    slot_of(
                        self.factory.kinds()[old(cycle).report@.data.len() as int],
                        Some(exchange),
                    ),
                ),
                ..old(cycle).report@
            }),
    {
        let i = cycle.report.data.len();
        assert(self.factory.owns(i as int));
        let driver = self.factory.driver(i);
        let kind = driver.sensor_kind();
        proof {
            lemma_reading_by_kind(*driver, exchange);
        }
        let outcome = ReadOutcome::from_result(driver.read(exchange));
        cycle.report.data.push(Slot { kind, outcome });
        assert(cycle.report@.kinds() =~= self.factory.kinds().take(i + 1)) by {
            assert(old(cycle).report@.kinds() == self.factory.kinds().take(i as int));
            assert forall|j: int| 0 <= j < i + 1 implies cycle.report@.kinds()[j]
                == self.factory.kinds().take(i + 1)[j] by {
                if j < i {
                    assert(cycle.report@.data[j] == old(cycle).report@.data[j]);
                    assert(old(cycle).report@.kinds()[j] == self.factory.kinds().take(i as int)[j]);
                }
            }
        }
    }

    /// Ends the cycle at its deadline: every sensor that has no slot yet
    /// gets one that holds a timeout.
    #[verifier::spinoff_prover]
    pub fn expire(&self, cycle: &mut Cycle)
        requires
            self.wf(),
            old(cycle).follows(self),
        ensures
            final(cycle).follows(self),
            final(cycle).complete(self),
            final(cycle).report@.device_urn == old(cycle).report@.device_urn,
            final(cycle).report@.location_urn == old(cycle).report@.location_urn,
            final(cycle).report@.cycle_id == old(cycle).report@.cycle_id,
            forall|i: int|
                0 <= i < self.factory.kinds().len() ==> #[trigger] final(cycle).report@.data[i]
                    == (if i < old(cycle).report@.data.len() {
                    old(cycle).report@.data[i]
                } else {
                    slot_of(self.factory.kinds()[i], None)
                }),
    {
        let n = self.factory.len();
        while cycle.report.data.len() < n
            invariant
                self.wf(),
                n == self.factory.kinds().len(),
                cycle.follows(self),
                cycle.report@.device_urn == old(cycle).report@.device_urn,
                cycle.report@.location_urn == old(cycle).report@.location_urn,
                cycle.report@.cycle_id == old(cycle).report@.cycle_id,
                old(cycle).report@.data.len() <= cycle.report@.data.len(),
                forall|i: int|
                    0 <= i < cycle.report@.data.len() ==> #[trigger] cycle.report@.data[i] == (if i
                        < old(cycle).report@.data.len() {
                        old(cycle).report@.data[i]
                    } else {
                        slot_of(self.factory.kinds()[i], None)
                    }),
            decreases n - cycle.report@.data.len(),
        {
            let i = cycle.report.data.len();
            let ghost before = cycle.report@;
            assert(self.factory.owns(i as int));
            let kind = self.factory.driver(i).sensor_kind();
            cycle.report.data.push(
                Slot { kind, outcome: ReadOutcome::Failure { reason: FailureReason::Timeout } },
            );
            assert(cycle.report@.kinds() =~= self.factory.kinds().take(i + 1)) by {
                assert(before.kinds() == self.factory.kinds().take(i as int));
                assert forall|j: int| 0 <= j < i + 1 implies cycle.report@.kinds()[j]
                    == self.factory.kinds().take(i + 1)[j] by {
                    if j < i {
                        assert(cycle.report@.data[j] == before.data[j]);
                        assert(before.kinds()[j] == self.factory.kinds().take(i as int)[j]);
                    }
                }
            }
        }
    }

    /// Runs one cycle in which the exchanges in `completed` ended before the
    /// deadline, the first with the first configured sensor and so on.
    /// Sensors beyond the completed exchanges are reported as timed out;
    /// exchanges beyond the configured sensors are not looked at. A failure
    /// of one sensor leaves the slots of the others as they are.
    #[verifier::spinoff_prover]
    pub fn _run(&mut self, completed: &Vec<Exchange>) -> (r: SensingClientServiceResponseDTO)
        requires
            old(self).wf(),
        ensures
            final(self).wf(),
            final(self).urn == old(self).urn,
            final(self).device_urn == old(self).device_urn,
            final(self).location_urn == old(self).location_urn,
            final(self).config == old(self).config,
            final(self).factory == old(self).factory,
            final(self).cycles == next_cycle(old(self).cycles),
            r@ == old(self).report_of(old(self).cycles, completed@),
            r@.wf(),
    {
        let mut cycle = self.begin();
        let n = self.factory.len();
        let mut i: usize = 0;
        while i < completed.len() && i < n
            invariant
                self.wf(),
                n == self.factory.kinds().len(),
                cycle.follows(self),
                cycle.report@.device_urn == self.device_urn@,
                cycle.report@.location_urn == self.location_urn@,
                cycle.report@.cycle_id == old(self).cycles,
                cycle.report@.data.len() == i,
                i <= n,
                i <= completed@.len(),
                forall|j: int|
                    0 <= j < i ==> #[trigger] cycle.report@.data[j] == slot_of(
                        self.factory.kinds()[j],
                        Some(completed@[j]),
                    ),
            decreases n - i,
        {
            self.submit(&mut cycle, completed[i]);
            i = i + 1;
        }
        self.expire(&mut cycle);
        proof {
            assert(cycle.report@.data =~= slots(self.factory.kinds(), completed@));
            assert(cycle.report@.kinds() =~= self.factory.kinds());
            lemma_selection_distinct(self.config.names());
        }
        cycle.report
    }

    /// Runs one cycle with a deadline of `deadline_ms` milliseconds. The
    /// exchanges took place one after the other from the start of the cycle,
    /// the first with the first configured sensor and so on, and each lasted
    /// as long as it says. The first exchange that ended after the deadline
    /// was cut off there: its sensor and all after it are reported as timed
    /// out, and the sensors before it as `_run` reports them.
    #[verifier::spinoff_prover]
    pub fn run_until(&mut self, deadline_ms: u64, timed: &Vec<Timed<Exchange>>) -> (r:
        SensingClientServiceResponseDTO)
        requires
            old(self).wf(),
        ensures
            final(self).wf(),
            final(self).urn == old(self).urn,
            final(self).device_urn == old(self).device_urn,
            final(self).location_urn == old(self).location_urn,
            final(self).config == old(self).config,
            final(self).factory == old(self).factory,
            final(self).cycles == next_cycle(old(self).cycles),
            r@ == old(self).report_of(
                old(self).cycles,
                first_exchanges(timed@, in_time(deadline_ms as int, durations(timed@))),
            ),
            r@.wf(),
    {
        let ghost all = durations(timed@);
        let mut completed: Vec<Exchange> = Vec::new();
        let mut left: u64 = deadline_ms;
        let mut i: usize = 0;
        let mut more = true;
        assert(all.skip(0) =~= all);
        assert(completed@ =~= first_exchanges(timed@, 0));
        while more && i < timed.len()
            invariant
                all == durations(timed@),
                i <= timed@.len(),
                in_time(deadline_ms as int, all) == i + in_time(left as int, all.skip(i as int)),
                completed@ == first_exchanges(timed@, i as nat),
                !more ==> in_time(left as int, all.skip(i as int)) == 0,
            decreases timed@.len() - i + (if more { 1int } else { 0int }),
        {
            assert(all.skip(i as int)[0] == timed@[i as int].elapsed_ms);
            assert(all.skip(i as int).drop_first() =~= all.skip(i + 1));
            if timed[i].elapsed_ms > left {
                more = false;
            } else {
                left = left - timed[i].elapsed_ms;
                completed.push(timed[i].value);
                i = i + 1;
                assert(completed@ =~= first_exchanges(timed@, i as nat));
            }
        }
        self._run(&completed)
    }

    /// Runs one cycle with a deadline of `deadline_ms` milliseconds: asks
    /// `probe` for one exchange with each configured sensor, in the
    /// configured order and each under the bus, and reports what the
    /// drivers make of them. An exchange that held the bus for longer than
    /// the bus allows counts as a busy bus. The first exchange that ends
    /// after the deadline is cut off there: its sensor and all after it are
    /// reported as timed out, and no further exchange is asked for. So
    /// every sensor was asked, or the last one asked is the one that ended
    /// after the deadline. Where the bus is held already, no exchange takes
    /// place and every sensor is reported with a busy bus. The bus is left
    /// as it was found.
    #[verifier::spinoff_prover]
    pub fn run<F: Fn(SensorKind) -> Timed<Exchange>>(
        &mut self,
        bus: &mut BusArbiter,
        deadline_ms: u64,
        probe: &F,
    ) -> (r: SensingClientServiceResponseDTO)
        requires
            old(self).wf(),
            old(bus).wf(),
            forall|kind: SensorKind| call_requires(probe, (kind,)),
        ensures
            final(self).wf(),
            final(self).urn == old(self).urn,
            final(self).device_urn == old(self).device_urn,
            final(self).location_urn == old(self).location_urn,
            final(self).config == old(self).config,
            final(self).factory == old(self).factory,
            final(self).cycles == next_cycle(old(self).cycles),
            final(bus).wf(),
            final(bus).limit_ms == old(bus).limit_ms,
            final(bus).holder == old(bus).holder,
            final(bus).since_ms == old(bus).since_ms,
            final(bus).waiters@ == old(bus).waiters@,
            r@.wf(),
            old(bus).holder is Some ==> r@ == old(self).report_of(
                old(self).cycles,
                Seq::new(
                    old(self).factory.kinds().len(),
                    |i: int| Err::<Sample, FailureReason>(FailureReason::BusBusy),
                ),
            ),
            old(bus).holder is None ==> exists|timed: Seq<Timed<Exchange>>|
                #![trigger probed(probe, old(self).factory.kinds(), timed)]
                probed(probe, old(self).factory.kinds(), timed) && (timed.len() == old(
                    self,
                ).factory.kinds().len() || timed.len() == in_time(
                    deadline_ms as int,
                    durations(timed),
                ) + 1) && timed.len() <= in_time(deadline_ms as int, durations(timed)) + 1 && r@
                    == old(self).report_of(
                    old(self).cycles,
                    completed_under(timed, deadline_ms, old(bus).limit_ms),
                ),
    {
        let mut cycle = self.begin();
        let n = self.factory.len();
        let ghost kinds = self.factory.kinds();
        let ghost free = old(bus).holder is None;
        let ghost limit = old(bus).limit_ms;
        let ghost mut timed: Seq<Timed<Exchange>> = Seq::empty();
        let mut left: u64 = deadline_ms;
        let mut more = true;
        assert(durations(timed) =~= Seq::<u64>::empty());
        while more && cycle.report.data.len() < n
            invariant
                self.wf(),
                *self == (SensingClientService { cycles: self.cycles, ..*old(self) }),
                self.cycles == next_cycle(old(self).cycles),
                kinds == self.factory.kinds(),
                n == kinds.len(),
                bus.wf(),
                bus.limit_ms == limit,
                bus.holder == old(bus).holder,
                bus.since_ms == old(bus).since_ms,
                bus.waiters@ == old(bus).waiters@,
                free == (old(bus).holder is None),
                forall|kind: SensorKind| call_requires(probe, (kind,)),
                cycle.follows(self),
                cycle.report@.cycle_id == old(self).cycles,
                !free ==> more,
                !free ==> forall|j: int|
                    0 <= j < cycle.report@.data.len() ==> #[trigger] cycle.report@.data[j]
                        == slot_of(kinds[j], Some(Err(FailureReason::BusBusy))),
                free ==> probed(probe, kinds, timed),
                free ==> in_time(deadline_ms as int, durations(timed)) == cycle.report@.data.len(),
                free && more ==> timed.len() == cycle.report@.data.len() && left == budget_left(
                    deadline_ms as int,
                    durations(timed),
                ),
                free && !more ==> timed.len() == cycle.report@.data.len() + 1,
                free ==> forall|j: int|
                    0 <= j < cycle.report@.data.len() ==> #[trigger] cycle.report@.data[j]
                        == slot_of(kinds[j], Some(exchange_under(timed[j], limit))),
            decreases n - cycle.report@.data.len() + (if more { 1int } else { 0int }),
        {
            let i = cycle.report.data.len();
            let ghost before = cycle.report@.data;
            assert(self.factory.owns(i as int));
            let kind = self.factory.driver(i).sensor_kind();
            let op = || -> (t: Timed<Exchange>)
                ensures
                    call_ensures(probe, (kind,), t),
                { probe(kind) };
            let held = bus.with_bus(i as u64, op);
            let exchange = match held.value {
                Ok(exchange) => exchange,
                Err(busy) => Err(busy),
            };
            proof {
                if free {
                    let seen = choose|t: Timed<Exchange>|
                        call_ensures(op, (), t) && held.elapsed_ms == t.elapsed_ms && held.value
                            == within_limit(t, limit);
                    assert(call_ensures(probe, (kind,), seen));
                    assert(exchange == exchange_under(seen, limit));
                    lemma_in_time_push(deadline_ms as int, durations(timed), seen.elapsed_ms);
                    assert(durations(timed.push(seen)) =~= durations(timed).push(seen.elapsed_ms));
                    lemma_budget_left_push(
                        deadline_ms as int,
                        durations(timed),
                        seen.elapsed_ms,
                    );
                    timed = timed.push(seen);
                }
            }
            if held.elapsed_ms > left {
                more = false;
            } else {
                left = left - held.elapsed_ms;
                self.submit(&mut cycle, exchange);
                assert forall|j: int| 0 <= j < cycle.report@.data.len() implies (free
                    ==> #[trigger] cycle.report@.data[j] == slot_of(
                    kinds[j],
                    Some(exchange_under(timed[j], limit)),
                )) && (!free ==> cycle.report@.data[j] == slot_of(
                    kinds[j],
                    Some(Err(FailureReason::BusBusy)),
                )) by {
                    if j < i {
                        assert(cycle.report@.data[j] == before[j]);
                    }
                }
            }
        }
        let ghost done = cycle.report@.data;
        self.expire(&mut cycle);
        proof {
            lemma_selection_distinct(self.config.names());
            assert(cycle.report@.kinds() =~= kinds);
            if free {
                lemma_in_time_bound(deadline_ms as int, durations(timed));
                assert(cycle.report@.data =~= slots(
                    kinds,
                    completed_under(timed, deadline_ms, limit),
                ));
                assert(probed(probe, old(self).factory.kinds(), timed));
            } else {
                assert(done.len() == n);
                assert(cycle.report@.data =~= slots(
                    kinds,
                    Seq::new(
                        kinds.len(),
                        |i: int| Err::<Sample, FailureReason>(FailureReason::BusBusy),
                    ),
                ));
            }
        }
        cycle.report
    }

    /// The keys of a report are the configured names in capitals: a text is
    /// the key of a slot exactly if it is the upper-case form of one of the
    /// configured names.
    pub proof fn lemma_report_keys(&self, cycle_id: u64, completed: Seq<Exchange>, key: Seq<char>)
        requires
            self.wf(),
        ensures
            kinds_have_key(self.report_of(cycle_id, completed).kinds(), key) == names_have_key(
                self.config.names(),
                key,
            ),
            self.report_of(cycle_id, completed).data.len() == selection(
                self.config.names(),
            )->Ok_0.len(),
    {
        lemma_selection_keys(self.config.names(), key);
        assert(self.report_of(cycle_id, completed).kinds() =~= self.factory.kinds());
    }

    /// One failure does not spoil a report: where the exchange with one
    /// sensor fails and those with all others bring a measurement, the
    /// report is partial, holds the failure in the slot of that sensor, and
    /// holds in every other slot the measurement of its own sensor.
    #[verifier::spinoff_prover]
    pub proof fn lemma_partial_failure(&self, cycle_id: u64, completed: Seq<Exchange>, failed: int)
        requires
            self.wf(),
            completed.len() == self.factory.kinds().len(),
            0 <= failed < completed.len(),
            reading_of(self.factory.kinds()[failed], completed[failed]) is Err,
            forall|j: int|
                0 <= j < completed.len() && j != failed ==> reading_of(
                    #[trigger] self.factory.kinds()[j],
                    completed[j],
                ) is Ok,
        ensures
            self.report_of(cycle_id, completed).partial(),
            failures(self.report_of(cycle_id, completed).data) == 1,
            self.report_of(cycle_id, completed).data[failed].outcome == (ReadOutcome::Failure {
                reason: reading_of(self.factory.kinds()[failed], completed[failed])->Err_0,
            }),
            forall|j: int|
                0 <= j < completed.len() && j != failed ==> (#[trigger] self.report_of(
                    cycle_id,
                    completed,
                ).data[j]).outcome == ReadOutcome::Measurement(
                    reading_of(self.factory.kinds()[j], completed[j])->Ok_0,
                ),
    {
        let data = self.report_of(cycle_id, completed).data;
        assert forall|j: int| 0 <= j < completed.len() && j != failed implies (#[trigger] data[j]).outcome
            == ReadOutcome::Measurement(reading_of(self.factory.kinds()[j], completed[j])->Ok_0) by {
            assert(reading_of(self.factory.kinds()[j], completed[j]) is Ok);
        }
        lemma_single_failure(data, failed);
    }
}

impl IUtility for SensingClientService {
    open spec fn urn_text(&self) -> Seq<char> {
        self.urn@
    }

    open spec fn device_urn_text(&self) -> Seq<char> {
        self.device_urn@
    }

    open spec fn location_urn_text(&self) -> Seq<char> {
        self.location_urn@
    }

    fn urn(&self) -> (r: String) {
        self.urn.clone()
    }

    fn device_urn(&self) -> (r: String) {
        self.device_urn.clone()
    }

    fn location_urn(&self) -> (r: String) {
        self.location_urn.clone()
    }
}

/// A list of slots in which one slot only holds a failure has one failure.
pub proof fn lemma_single_failure(data: Seq<Slot>, failed: int)
    requires
        0 <= failed < data.len(),
        data[failed].outcome is Failure,
        forall|j: int| 0 <= j < data.len() && j != failed ==> !((#[trigger] data[j]).outcome is Failure),
    ensures
        failures(data) == 1,
    decreases data.len(),
{
    let front = data.drop_last();
    if failed == data.len() - 1 {
        lemma_failures_none(front);
        assert forall|i: int| 0 <= i < front.len() implies !((#[trigger] front[i]).outcome is Failure) by {
            assert(front[i] == data[i]);
        }
    } else {
        assert(front[failed] == data[failed]);
        assert forall|j: int| 0 <= j < front.len() && j != failed implies !((#[trigger] front[j]).outcome is Failure) by {
            assert(front[j] == data[j]);
        }
        lemma_single_failure(front, failed);
    }
}

} // verus!
