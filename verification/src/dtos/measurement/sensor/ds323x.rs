use crate::values::datetime::UtcDateTime;
use vstd::prelude::*;

verus! {

/// The moment that the real-time clock shows. On the wire it reads
/// `YYYY-MM-DDTHH:MM:SSZ`.
#[derive(Clone, Copy, Debug, PartialEq, Eq, Structural)]
pub struct DS323XSensorMeasurement {
    pub datetime: UtcDateTime,
}

impl DS323XSensorMeasurement {
    /// The fields name a moment that exists.
    pub open spec fn wf(self) -> bool {
        self.datetime.valid()
    }

    /// Whether the fields name a moment that exists.
    pub fn is_wf(&self) -> (r: bool)
        ensures
            r == self.wf(),
    {
        self.datetime.is_valid()
    }
}

} // verus!
