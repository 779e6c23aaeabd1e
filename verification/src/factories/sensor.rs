use crate::abstractions::factory::IFactory;
use crate::abstractions::sensor::ISensor;
use crate::abstractions::utility::IUtility;
use crate::configurations::sensors::{distinct, SensorsConfig};
use crate::enums::error::SensingError;
use crate::enums::kind::SensorKind;
use crate::sensors::driver::SensorDriver;
use crate::identity::{check_identity, derived_urn, identity_ok, DeviceIdentity};
use vstd::prelude::*;
use vstd::string::*;

verus! {

/// The registry of the node: it owns one driver for each configured part
/// and hands them out by short name, or all of them in the configured order.
pub struct SensorFactory {
    pub urn: String,
    pub device_urn: String,
    pub location_urn: String,
    pub store: Vec<SensorDriver>,
}

impl SensorFactory {
    /// The parts whose drivers the registry holds, in their order.
    pub open spec fn kinds(&self) -> Seq<SensorKind> {
        Seq::new(self.store@.len(), |i: int| self.store@[i].kind())
    }

    /// Whether the driver at a position belongs to this registry: it is
    /// well formed, bears the short name of its part, is named after the
    /// registry and that part, and has the registry's device and location.
    pub open spec fn owns(&self, i: int) -> bool {
        let d = self.store@[i];
        &&& d.wf()
        &&& d.name_text() == d.kind().short_name()
        &&& d.urn_text() == derived_urn(self.urn@, d.kind().short_name())
        &&& d.device_urn_text() == self.device_urn@
        &&& d.location_urn_text() == self.location_urn@
    }

    /// The registry has a name, a device and a location, holds no part twice,
    /// and every driver in it belongs to it.
    pub open spec fn wf(&self) -> bool {
        &&& identity_ok(self.urn@, self.device_urn@, self.location_urn@)
        &&& distinct(self.kinds())
        &&& forall|i: int| 0 <= i < self.store@.len() ==> self.owns(i)
    }

    /// The position of the driver of a part, where the registry holds one.
    pub open spec fn position(&self, kind: SensorKind) -> Option<int> {
        if self.kinds().contains(kind) {
            Some(choose|i: int| 0 <= i < self.kinds().len() && self.kinds()[i] == kind)
        } else {
            None
        }
    }

    /// The driver that the registry holds under a key: the driver of the
    /// part whose short name is exactly the key. Short names are in small
    /// letters; a key in capitals finds nothing.
    pub open spec fn found(&self, key: Seq<char>) -> Option<SensorDriver> {
        match SensorKind::named(key) {
            Some(kind) => match self.position(kind) {
                Some(i) => Some(self.store@[i]),
                None => None,
            },
            None => None,
        }
    }

    /// The registry named `urn` on the given device and location, with one
    /// driver for each configured part, in the configured order. The three
    /// names must not be empty.
    pub fn new(urn: String, device_urn: String, location_urn: String, config: &SensorsConfig) -> (r:
        Result<Self, SensingError>)
        requires
            config.wf(),
        ensures
            match r {
                Ok(f) => f.wf() && f.urn == urn && f.device_urn == device_urn && f.location_urn
                    == location_urn && f.kinds() == config.included@,
                Err(e) => e == SensingError::EmptyUrn && !identity_ok(
                    urn@,
                    device_urn@,
                    location_urn@,
                ),
            },
    {
        if !check_identity(urn.as_str(), device_urn.as_str(), location_urn.as_str()) {
            return Err(SensingError::EmptyUrn);
        }
        let mut store: Vec<SensorDriver> = Vec::new();
        let mut i: usize = 0;
        while i < config.included.len()
            invariant
                i <= config.included.len(),
                identity_ok(urn@, device_urn@, location_urn@),
                store@.len() == i,
                forall|j: int|
                    0 <= j < i ==> {
                        let d = #[trigger] store@[j];
                        &&& d.wf()
                        &&& d.kind() == config.included@[j]
                        &&& d.name_text() == d.kind().short_name()
                        &&& d.urn_text() == derived_urn(urn@, d.kind().short_name())
                        &&& d.device_urn_text() == device_urn@
                        &&& d.location_urn_text() == location_urn@
                    },
            decreases config.included.len() - i,
        {
            match SensorDriver::build(
                config.included[i],
                urn.as_str(),
                device_urn.as_str(),
                location_urn.as_str(),
            ) {
                Ok(driver) => {
                    store.push(driver);
                },
                Err(e) => {
                    return Err(e);
                },
            }
            i = i + 1;
        }
        let factory = SensorFactory { urn, device_urn, location_urn, store };
        assert(factory.kinds() =~= config.included@);
        Ok(factory)
    }

    /// The registry of the component known as `identity`, with one driver
    /// for each configured part, in the configured order.
    pub fn build(identity: &DeviceIdentity, config: &SensorsConfig) -> (r: Result<
        Self,
        SensingError,
    >)
        requires
            config.wf(),
        ensures
            match r {
                Ok(f) => f.wf() && f.urn@ == identity.self_urn@ && f.device_urn@
                    == identity.device_urn@ && f.location_urn@ == identity.location_urn@
                    && f.kinds() == config.included@,
                Err(e) => e == SensingError::EmptyUrn && !identity.wf(),
            },
    {
        SensorFactory::new(
            identity.self_urn.clone(),
            identity.device_urn.clone(),
            identity.location_urn.clone(),
            config,
        )
    }

    /// The number of drivers in the registry.
    pub fn len(&self) -> (n: usize)
        ensures
            n == self.store@.len(),
    {
        self.store.len()
    }

    /// The driver at a position of the configured order.
    pub fn driver(&self, i: usize) -> (d: &SensorDriver)
        requires
            i < self.store@.len(),
        ensures
            *d == self.store@[i as int],
    {
        &self.store[i]
    }

    /// The drivers with the parts they drive, in the configured order.
    pub fn active(&self) -> (r: Vec<(SensorKind, &SensorDriver)>)
        requires
            self.wf(),
        ensures
            r@.len() == self.store@.len(),
            forall|i: int|
                0 <= i < r@.len() ==> (#[trigger] r@[i]).0 == self.kinds()[i] && *r@[i].1
                    == self.store@[i],
    {
        let mut r: Vec<(SensorKind, &SensorDriver)> = Vec::new();
        let mut i: usize = 0;
        while i < self.store.len()
            invariant
                self.wf(),
                i <= self.store@.len(),
                r@.len() == i,
                forall|j: int|
                    0 <= j < i ==> (#[trigger] r@[j]).0 == self.kinds()[j] && *r@[j].1
                        == self.store@[j],
            decreases self.store@.len() - i,
        {
            assert(self.owns(i as int));
            let d = &self.store[i];
            r.push((d.sensor_kind(), d));
            i = i + 1;
        }
        r
    }

    /// The driver that the registry holds under exactly this short name,
    /// which is then the driver's own name; `NotFound` where it holds none.
    /// The registry is left as it is. It is searched in its order, which
    /// holds one driver for each part of the catalog at most.
    pub fn _get(&self, key: &str) -> (r: Result<&SensorDriver, SensingError>)
        requires
            self.wf(),
        ensures
            match r {
                Ok(d) => self.found(key@) == Some(*d) && d.name_text() == key@,
                Err(e) => e == SensingError::NotFound && self.found(key@) is None,
            },
            r is Ok <==> exists|i: int|
                0 <= i < self.store@.len() && (#[trigger] self.store@[i]).name_text() == key@,
    {
        proof {
            if exists|i: int|
                0 <= i < self.store@.len() && (#[trigger] self.store@[i]).name_text() == key@ {
                let i = choose|i: int|
                    0 <= i < self.store@.len() && (#[trigger] self.store@[i]).name_text() == key@;
                assert(self.owns(i));
                self.store@[i].kind().lemma_lookup_own_names();
                assert(self.kinds()[i] == self.store@[i].kind());
                assert(SensorKind::named(key@) == Some(self.store@[i].kind()));
                assert(self.kinds().contains(self.store@[i].kind()));
            }
        }
        let kind = match SensorKind::from_short_name(key) {
            Some(kind) => kind,
            None => {
                return Err(SensingError::NotFound);
            },
        };
        let mut i: usize = 0;
        while i < self.store.len()
            invariant
                self.wf(),
                i <= self.store@.len(),
                SensorKind::named(key@) == Some(kind),
                forall|j: int| 0 <= j < i ==> self.kinds()[j] != kind,
            decreases self.store@.len() - i,
        {
            assert(self.owns(i as int));
            if self.store[i].sensor_kind() == kind {
                assert(self.kinds()[i as int] == kind);
                return Ok(&self.store[i]);
            }
            i = i + 1;
        }
        Err(SensingError::NotFound)
    }
}

impl IUtility for SensorFactory {
    open spec fn urn_text(&self) -> Seq<char> {
        self.urn@
    }

    open spec fn device_urn_text(&self) -> Seq<char> {
        self.device_urn@
    }

    open spec fn location_urn_text(&self) -> Seq<char> {
        self.location_urn@
    }

    fn urn(&self) -> (r: String) {
        self.urn.clone()
    }

    fn device_urn(&self) -> (r: String) {
        self.device_urn.clone()
    }

    fn location_urn(&self) -> (r: String) {
        self.location_urn.clone()
    }
}

impl IFactory<SensorDriver> for SensorFactory {
    open spec fn valid(&self) -> bool {
        self.wf()
    }

    open spec fn held(&self, key: Seq<char>) -> Option<SensorDriver> {
        self.found(key)
    }

    fn get(&self, key: &str) -> (r: Result<&SensorDriver, SensingError>)
        ensures
            r matches Ok(d) ==> d.name_text() == key@,
            r is Ok <==> exists|i: int|
                0 <= i < self.store@.len() && (#[trigger] self.store@[i]).name_text() == key@,
    {
        self._get(key)
    }
}

} // verus!
