use crate::enums::condition::LightCondition;
use crate::values::fixed::Fixed;
use vstd::prelude::*;

verus! {

/// An illuminance in lux with the condition it falls under.
#[derive(Clone, Copy, Debug, PartialEq, Eq, Structural)]
pub struct BH1750SensorMeasurement {
    pub lux: Fixed,
    pub condition: LightCondition,
}

impl BH1750SensorMeasurement {
    /// The illuminance is not negative and the condition is the one of its
    /// bin.
    pub open spec fn wf(self) -> bool {
        &&& self.lux.thousandths >= 0
        &&& self.condition == LightCondition::of(self.lux.thousandths as int)
    }

    /// Whether the illuminance is not negative and the condition is the one of
    /// its bin.
    pub fn is_wf(&self) -> (r: bool)
        ensures
            r == self.wf(),
    {
        !self.lux.is_negative() && self.condition == LightCondition::classify(self.lux)
    }
}

} // verus!
