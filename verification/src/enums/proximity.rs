use crate::constants::distance::DistanceConstant;
use crate::values::text::same_text;
use vstd::prelude::*;

verus! {

/// How near the closest obstacle is, from nearest to farthest. `Unknown`
/// stands for a range that could not be measured.
#[derive(Clone, Copy, Debug, PartialEq, Eq, Structural)]
pub enum ProximityClass {
    TooClose,
    VeryClose,
    Close,
    Near,
    Medium,
    Far,
    OutOfRange,
    Unknown,
}

impl ProximityClass {
    /// Position of the class on the scale from nearest (0) to farthest (6);
    /// `Unknown` comes last.
    pub open spec fn rank(self) -> nat {
        match self {
            ProximityClass::TooClose => 0,
            ProximityClass::VeryClose => 1,
            ProximityClass::Close => 2,
            ProximityClass::Near => 3,
            ProximityClass::Medium => 4,
            ProximityClass::Far => 5,
            ProximityClass::OutOfRange => 6,
            ProximityClass::Unknown => 7,
        }
    }

    /// The class of a range in millimetres. Each bin includes its upper
    /// bound: up to 10 mm is too close, up to 50 very close, up to 200
    /// close, up to 500 near, up to 1000 medium, up to 2000 far, and
    /// anything above is out of range.
    pub open spec fn of(distance_mm: int) -> ProximityClass {
        if distance_mm <= 10 {
            ProximityClass::TooClose
        } else if distance_mm <= 50 {
            ProximityClass::VeryClose
        } else if distance_mm <= 200 {
            ProximityClass::Close
        } else if distance_mm <= 500 {
            ProximityClass::Near
        } else if distance_mm <= 1000 {
            ProximityClass::Medium
        } else if distance_mm <= 2000 {
            ProximityClass::Far
        } else {
            ProximityClass::OutOfRange
        }
    }

    /// The name under which the class is reported.
    pub open spec fn label(self) -> Seq<char> {
        match self {
            ProximityClass::TooClose => "TOO_CLOSE"@,
            ProximityClass::VeryClose => "VERY_CLOSE"@,
            ProximityClass::Close => "CLOSE"@,
            ProximityClass::Near => "NEAR"@,
            ProximityClass::Medium => "MEDIUM"@,
            ProximityClass::Far => "FAR"@,
            ProximityClass::OutOfRange => "OUT_OF_RANGE"@,
            ProximityClass::Unknown => "UNKNOWN"@,
        }
    }

    /// The class that a name stands for, if any. Names are matched exactly.
    pub open spec fn named(name: Seq<char>) -> Option<ProximityClass> {
        if name == ProximityClass::TooClose.label() {
            Some(ProximityClass::TooClose)
        } else if name == ProximityClass::VeryClose.label() {
            Some(ProximityClass::VeryClose)
        } else if name == ProximityClass::Close.label() {
            Some(ProximityClass::Close)
        } else if name == ProximityClass::Near.label() {
            Some(ProximityClass::Near)
        } else if name == ProximityClass::Medium.label() {
            Some(ProximityClass::Medium)
        } else if name == ProximityClass::Far.label() {
            Some(ProximityClass::Far)
        } else if name == ProximityClass::OutOfRange.label() {
            Some(ProximityClass::OutOfRange)
        } else if name == ProximityClass::Unknown.label() {
            Some(ProximityClass::Unknown)
        } else {
            None
        }
    }

    /// The class of a range in millimetres.
    pub fn classify(distance_mm: u16) -> (r: ProximityClass)
        ensures
            r == ProximityClass::of(distance_mm as int),
    {
        if distance_mm <= DistanceConstant::TOO_CLOSE_MAX_MM {
            ProximityClass::TooClose
        } else if distance_mm <= DistanceConstant::VERY_CLOSE_MAX_MM {
            ProximityClass::VeryClose
        } else if distance_mm <= DistanceConstant::CLOSE_MAX_MM {
            ProximityClass::Close
        } else if distance_mm <= DistanceConstant::NEAR_MAX_MM {
            ProximityClass::Near
        } else if distance_mm <= DistanceConstant::MEDIUM_MAX_MM {
            ProximityClass::Medium
        } else if distance_mm <= DistanceConstant::FAR_MAX_MM {
            ProximityClass::Far
        } else {
            ProximityClass::OutOfRange
        }
    }

    /// The name under which the class is reported.
    pub fn name(&self) -> (s: &'static str)
        ensures
            s@ == self.label(),
    {
        match self {
            ProximityClass::TooClose => DistanceConstant::TOO_CLOSE,
            ProximityClass::VeryClose => DistanceConstant::VERY_CLOSE,
            ProximityClass::Close => DistanceConstant::CLOSE,
            ProximityClass::Near => DistanceConstant::NEAR,
            ProximityClass::Medium => DistanceConstant::MEDIUM,
            ProximityClass::Far => DistanceConstant::FAR,
            ProximityClass::OutOfRange => DistanceConstant::OUT_OF_RANGE,
            ProximityClass::Unknown => DistanceConstant::UNKNOWN,
        }
    }

    /// The class that a name stands for.
    pub fn from_name(name: &str) -> (r: Option<ProximityClass>)
        ensures
            r == ProximityClass::named(name@),
    {
        if same_text(name, DistanceConstant::TOO_CLOSE) {
            Some(ProximityClass::TooClose)
        } else if same_text(name, DistanceConstant::VERY_CLOSE) {
            Some(ProximityClass::VeryClose)
        } else if same_text(name, DistanceConstant::CLOSE) {
            Some(ProximityClass::Close)
        } else if same_text(name, DistanceConstant::NEAR) {
            Some(ProximityClass::Near)
        } else if same_text(name, DistanceConstant::MEDIUM) {
            Some(ProximityClass::Medium)
        } else if same_text(name, DistanceConstant::FAR) {
            Some(ProximityClass::Far)
        } else if same_text(name, DistanceConstant::OUT_OF_RANGE) {
            Some(ProximityClass::OutOfRange)
        } else if same_text(name, DistanceConstant::UNKNOWN) {
            Some(ProximityClass::Unknown)
        } else {
            None
        }
    }

    /// Every class is found again under its own name.
    pub proof fn lemma_named_label(self)
        ensures
            ProximityClass::named(self.label()) == Some(self),
    {
        reveal_strlit("TOO_CLOSE");
        assert("TOO_CLOSE"@.len() == 9 && "TOO_CLOSE"@[0] == 'T');
        reveal_strlit("VERY_CLOSE");
        assert("VERY_CLOSE"@.len() == 10 && "VERY_CLOSE"@[0] == 'V');
        reveal_strlit("CLOSE");
        assert("CLOSE"@.len() == 5 && "CLOSE"@[0] == 'C');
        reveal_strlit("NEAR");
        assert("NEAR"@.len() == 4 && "NEAR"@[0] == 'N');
        reveal_strlit("MEDIUM");
        assert("MEDIUM"@.len() == 6 && "MEDIUM"@[0] == 'M');
        reveal_strlit("FAR");
        assert("FAR"@.len() == 3 && "FAR"@[0] == 'F');
        reveal_strlit("OUT_OF_RANGE");
        assert("OUT_OF_RANGE"@.len() == 12 && "OUT_OF_RANGE"@[0] == 'O');
        reveal_strlit("UNKNOWN");
        assert("UNKNOWN"@.len() == 7 && "UNKNOWN"@[0] == 'U');
    }

    /// A longer range never has a nearer class.
    pub proof fn lemma_of_monotone(mm1: int, mm2: int)
        requires
            mm1 <= mm2,
        ensures
            ProximityClass::of(mm1).rank() <= ProximityClass::of(mm2).rank(),
    {
    }
}

} // verus!
