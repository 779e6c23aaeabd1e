use crate::constants::condition::ConditionConstant;
use crate::values::fixed::Fixed;
use crate::values::text::same_text;
use vstd::prelude::*;

verus! {

/// How bright the surroundings are, from darkest to brightest.
#[derive(Clone, Copy, Debug, PartialEq, Eq, Structural)]
pub enum LightCondition {
    VeryDark,
    Dark,
    Dim,
    Normal,
    Bright,
    VeryBright,
    Extreme,
}

impl LightCondition {
    /// Position of the condition on the scale from darkest (0) to brightest (6).
    pub open spec fn rank(self) -> nat {
        match self {
            LightCondition::VeryDark => 0,
            LightCondition::Dark => 1,
            LightCondition::Dim => 2,
            LightCondition::Normal => 3,
            LightCondition::Bright => 4,
            LightCondition::VeryBright => 5,
            LightCondition::Extreme => 6,
        }
    }

    /// The condition of an illuminance given in thousandths of a lux. Each
    /// bin includes its upper bound: up to 10 lux is very dark, up to 50
    /// dark, up to 200 dim, up to 1000 normal, up to 5000 bright, up to
    /// 10000 very bright, and anything above is extreme.
    pub open spec fn of(lux: int) -> LightCondition {
        if lux <= 10_000 {
            LightCondition::VeryDark
        } else if lux <= 50_000 {
            LightCondition::Dark
        } else if lux <= 200_000 {
            LightCondition::Dim
        } else if lux <= 1_000_000 {
            LightCondition::Normal
        } else if lux <= 5_000_000 {
            LightCondition::Bright
        } else if lux <= 10_000_000 {
            LightCondition::VeryBright
        } else {
            LightCondition::Extreme
        }
    }

    /// The name under which the condition is reported.
    pub open spec fn label(self) -> Seq<char> {
        match self {
            LightCondition::VeryDark => "VERY_DARK"@,
            LightCondition::Dark => "DARK"@,
            LightCondition::Dim => "DIM"@,
            LightCondition::Normal => "NORMAL"@,
            LightCondition::Bright => "BRIGHT"@,
            LightCondition::VeryBright => "VERY_BRIGHT"@,
            LightCondition::Extreme => "EXTREME"@,
        }
    }

    /// The condition that a name stands for, if any. Names are matched
    /// exactly.
    pub open spec fn named(name: Seq<char>) -> Option<LightCondition> {
        if name == LightCondition::VeryDark.label() {
            Some(LightCondition::VeryDark)
        } else if name == LightCondition::Dark.label() {
            Some(LightCondition::Dark)
        } else if name == LightCondition::Dim.label() {
            Some(LightCondition::Dim)
        } else if name == LightCondition::Normal.label() {
            Some(LightCondition::Normal)
        } else if name == LightCondition::Bright.label() {
            Some(LightCondition::Bright)
        } else if name == LightCondition::VeryBright.label() {
            Some(LightCondition::VeryBright)
        } else if name == LightCondition::Extreme.label() {
            Some(LightCondition::Extreme)
        } else {
            None
        }
    }

    /// The condition of an illuminance.
    pub fn classify(lux: Fixed) -> (r: LightCondition)
        ensures
            r == LightCondition::of(lux.thousandths as int),
    {
        let v = lux.thousandths;
        if v <= ConditionConstant::VERY_DARK_MAX {
            LightCondition::VeryDark
        } else if v <= ConditionConstant::DARK_MAX {
            LightCondition::Dark
        } else if v <= ConditionConstant::DIM_MAX {
            LightCondition::Dim
        } else if v <= ConditionConstant::NORMAL_MAX {
            LightCondition::Normal
        } else if v <= ConditionConstant::BRIGHT_MAX {
            LightCondition::Bright
        } else if v <= ConditionConstant::VERY_BRIGHT_MAX {
            LightCondition::VeryBright
        } else {
            LightCondition::Extreme
        }
    }

    /// The name under which the condition is reported.
    pub fn name(&self) -> (s: &'static str)
        ensures
            s@ == self.label(),
    {
        match self {
            LightCondition::VeryDark => ConditionConstant::VERY_DARK,
            LightCondition::Dark => ConditionConstant::DARK,
            LightCondition::Dim => ConditionConstant::DIM,
            LightCondition::Normal => ConditionConstant::NORMAL,
            LightCondition::Bright => ConditionConstant::BRIGHT,
            LightCondition::VeryBright => ConditionConstant::VERY_BRIGHT,
            LightCondition::Extreme => ConditionConstant::EXTREME,
        }
    }

    /// The condition that a name stands for.
    pub fn from_name(name: &str) -> (r: Option<LightCondition>)
        ensures
            r == LightCondition::named(name@),
    {
        if same_text(name, ConditionConstant::VERY_DARK) {
            Some(LightCondition::VeryDark)
        } else if same_text(name, ConditionConstant::DARK) {
            Some(LightCondition::Dark)
        } else if same_text(name, ConditionConstant::DIM) {
            Some(LightCondition::Dim)
        } else if same_text(name, ConditionConstant::NORMAL) {
            Some(LightCondition::Normal)
        } else if same_text(name, ConditionConstant::BRIGHT) {
            Some(LightCondition::Bright)
        } else if same_text(name, ConditionConstant::VERY_BRIGHT) {
            Some(LightCondition::VeryBright)
        } else if same_text(name, ConditionConstant::EXTREME) {
            Some(LightCondition::Extreme)
        } else {
            None
        }
    }

    /// Every condition is found again under its own name.
    pub proof fn lemma_named_label(self)
        ensures
            LightCondition::named(self.label()) == Some(self),
    {
        reveal_strlit("VERY_DARK");
        assert("VERY_DARK"@.len() == 9 && "VERY_DARK"@[0] == 'V');
        reveal_strlit("DARK");
        assert("DARK"@.len() == 4 && "DARK"@[0] == 'D');
        reveal_strlit("DIM");
        assert("DIM"@.len() == 3 && "DIM"@[0] == 'D');
        reveal_strlit("NORMAL");
        assert("NORMAL"@.len() == 6 && "NORMAL"@[0] == 'N');
        reveal_strlit("BRIGHT");
        assert("BRIGHT"@.len() == 6 && "BRIGHT"@[0] == 'B');
        reveal_strlit("VERY_BRIGHT");
        assert("VERY_BRIGHT"@.len() == 11 && "VERY_BRIGHT"@[0] == 'V');
        reveal_strlit("EXTREME");
        assert("EXTREME"@.len() == 7 && "EXTREME"@[0] == 'E');
    }

    /// A brighter light never has a darker condition.
    pub proof fn lemma_of_monotone(lux1: int, lux2: int)
        requires
            lux1 <= lux2,
        ensures
            LightCondition::of(lux1).rank() <= LightCondition::of(lux2).rank(),
    {
    }
}

} // verus!
