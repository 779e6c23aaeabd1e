use crate::abstractions::utility::IUtility;
use crate::enums::error::SensingError;
use crate::enums::kind::SensorKind;
use vstd::prelude::*;
use vstd::string::*;

verus! {

/// The names under which a component is known: its own, that of the device
/// it runs on, and that of the place where the device stands. None of them
/// is empty.
#[derive(Clone, Debug, PartialEq, Eq)]
pub struct DeviceIdentity {
    pub self_urn: String,
    pub device_urn: String,
    pub location_urn: String,
}

/// Whether none of the three names that identify a component is empty.
pub open spec fn identity_ok(urn: Seq<char>, device_urn: Seq<char>, location_urn: Seq<char>) -> bool {
    urn.len() > 0 && device_urn.len() > 0 && location_urn.len() > 0
}

/// Whether none of the three names is empty.
pub fn check_identity(urn: &str, device_urn: &str, location_urn: &str) -> (r: bool)
    ensures
        r == identity_ok(urn@, device_urn@, location_urn@),
{
    !urn.is_empty() && !device_urn.is_empty() && !location_urn.is_empty()
}

/// The part that a driver with these names would drive: an empty name is
/// refused first, then a name that is the short name of no part.
pub open spec fn selected(
    urn: Seq<char>,
    device_urn: Seq<char>,
    location_urn: Seq<char>,
    name: Seq<char>,
) -> Result<SensorKind, SensingError> {
    if !identity_ok(urn, device_urn, location_urn) {
        Err(SensingError::EmptyUrn)
    } else {
        match SensorKind::named(name) {
            Some(kind) => Ok(kind),
            None => Err(SensingError::WrongName),
        }
    }
}

/// What stands in the way of a driver for the parts in `kinds` with these
/// names: an empty name first, then a name that is the short name of none of
/// those parts.
pub open spec fn driver_fault(
    kinds: Set<SensorKind>,
    urn: Seq<char>,
    device_urn: Seq<char>,
    location_urn: Seq<char>,
    name: Seq<char>,
) -> Option<SensingError> {
    match selected(urn, device_urn, location_urn, name) {
        Err(e) => Some(e),
        Ok(kind) => if kinds.contains(kind) {
            None
        } else {
            Some(SensingError::WrongName)
        },
    }
}

/// The part that a driver with these names would drive.
pub fn check_driver(urn: &str, device_urn: &str, location_urn: &str, name: &str) -> (r: Result<
    SensorKind,
    SensingError,
>)
    ensures
        r == selected(urn@, device_urn@, location_urn@, name@),
{
    if !check_identity(urn, device_urn, location_urn) {
        return Err(SensingError::EmptyUrn);
    }
    match SensorKind::from_short_name(name) {
        Some(kind) => Ok(kind),
        None => Err(SensingError::WrongName),
    }
}

/// The name of a driver: the name of its registry, a colon, and the short
/// name of its part.
pub open spec fn derived_urn(base: Seq<char>, short_name: Seq<char>) -> Seq<char> {
    base + seq![':'] + short_name
}

/// The name of the driver of a part in the registry named `base`.
pub fn derive_urn(base: &str, short_name: &str) -> (r: String)
    ensures
        r@ == derived_urn(base@, short_name@),
{
    let mut r = String::from_str(base);
    r.append(":");
    r.append(short_name);
    proof {
        reveal_strlit(":");
        assert(":"@ =~= seq![':']);
    }
    r
}

impl DeviceIdentity {
    /// None of the three names is empty.
    pub open spec fn wf(&self) -> bool {
        identity_ok(self.self_urn@, self.device_urn@, self.location_urn@)
    }

    /// The identity with the given names, none of which may be empty.
    pub fn new(self_urn: String, device_urn: String, location_urn: String) -> (r: Result<
        Self,
        SensingError,
    >)
        ensures
            match r {
                Ok(id) => id.wf() && id.self_urn == self_urn && id.device_urn == device_urn
                    && id.location_urn == location_urn,
                Err(e) => e == SensingError::EmptyUrn && !identity_ok(
                    self_urn@,
                    device_urn@,
                    location_urn@,
                ),
            },
    {
        if check_identity(self_urn.as_str(), device_urn.as_str(), location_urn.as_str()) {
            Ok(DeviceIdentity { self_urn, device_urn, location_urn })
        } else {
            Err(SensingError::EmptyUrn)
        }
    }

    /// The identity of the driver of a part that belongs to this component:
    /// the same device and location, and this component's name, a colon and
    /// the short name of the part as its own name.
    pub fn of_driver(&self, kind: SensorKind) -> (r: DeviceIdentity)
        ensures
            r.self_urn@ == derived_urn(self.self_urn@, kind.short_name()),
            r.device_urn@ == self.device_urn@,
            r.location_urn@ == self.location_urn@,
            self.wf() ==> r.wf(),
    {
        DeviceIdentity {
            self_urn: derive_urn(self.self_urn.as_str(), kind.name()),
            device_urn: self.device_urn.clone(),
            location_urn: self.location_urn.clone(),
        }
    }
}

impl IUtility for DeviceIdentity {
    open spec fn urn_text(&self) -> Seq<char> {
        self.self_urn@
    }

    open spec fn device_urn_text(&self) -> Seq<char> {
        self.device_urn@
    }

    open spec fn location_urn_text(&self) -> Seq<char> {
        self.location_urn@
    }

    fn urn(&self) -> (r: String) {
        self.self_urn.clone()
    }

    fn device_urn(&self) -> (r: String) {
        self.device_urn.clone()
    }

    fn location_urn(&self) -> (r: String) {
        self.location_urn.clone()
    }
}

} // verus!
