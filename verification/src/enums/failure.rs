use crate::values::text::same_text;
use vstd::prelude::*;

verus! {

/// Why a sensor has no measurement in a report.
#[derive(Clone, Copy, Debug, PartialEq, Eq, Structural)]
pub enum FailureReason {
    /// The bus was held longer than its limit allows.
    BusBusy,
    /// The part did not answer.
    DeviceNotResponding,
    /// The part answered with a value outside what it can measure.
    OutOfRange,
    /// The answer was not of the form that the part's driver expects.
    ProtocolError,
    /// The cycle's deadline passed before the part was read.
    Timeout,
}

impl FailureReason {
    /// Whether the failure lies with the part itself, and not with the bus
    /// or the cycle's deadline.
    pub open spec fn of_part(self) -> bool {
        self == FailureReason::DeviceNotResponding || self == FailureReason::OutOfRange || self
            == FailureReason::ProtocolError
    }

    /// Whether the failure lies with the part itself.
    pub fn is_of_part(&self) -> (r: bool)
        ensures
            r == self.of_part(),
    {
        match self {
            FailureReason::DeviceNotResponding => true,
            FailureReason::OutOfRange => true,
            FailureReason::ProtocolError => true,
            FailureReason::BusBusy => false,
            FailureReason::Timeout => false,
        }
    }

    /// The name under which the failure is reported.
    pub open spec fn label(self) -> Seq<char> {
        match self {
            FailureReason::BusBusy => "BusBusy"@,
            FailureReason::DeviceNotResponding => "DeviceNotResponding"@,
            FailureReason::OutOfRange => "OutOfRange"@,
            FailureReason::ProtocolError => "ProtocolError"@,
            FailureReason::Timeout => "Timeout"@,
        }
    }

    /// The failure that a name stands for, if any. Names are matched exactly.
    pub open spec fn named(name: Seq<char>) -> Option<FailureReason> {
        if name == FailureReason::BusBusy.label() {
            Some(FailureReason::BusBusy)
        } else if name == FailureReason::DeviceNotResponding.label() {
            Some(FailureReason::DeviceNotResponding)
        } else if name == FailureReason::OutOfRange.label() {
            Some(FailureReason::OutOfRange)
        } else if name == FailureReason::ProtocolError.label() {
            Some(FailureReason::ProtocolError)
        } else if name == FailureReason::Timeout.label() {
            Some(FailureReason::Timeout)
        } else {
            None
        }
    }

    /// The name under which the failure is reported.
    pub fn name(&self) -> (s: &'static str)
        ensures
            s@ == self.label(),
    {
        match self {
            FailureReason::BusBusy => "BusBusy",
            FailureReason::DeviceNotResponding => "DeviceNotResponding",
            FailureReason::OutOfRange => "OutOfRange",
            FailureReason::ProtocolError => "ProtocolError",
            FailureReason::Timeout => "Timeout",
        }
    }

    /// The failure that a name stands for.
    pub fn from_name(name: &str) -> (r: Option<FailureReason>)
        ensures
            r == FailureReason::named(name@),
    {
        if same_text(name, "BusBusy") {
            Some(FailureReason::BusBusy)
        } else if same_text(name, "DeviceNotResponding") {
            Some(FailureReason::DeviceNotResponding)
        } else if same_text(name, "OutOfRange") {
            Some(FailureReason::OutOfRange)
        } else if same_text(name, "ProtocolError") {
            Some(FailureReason::ProtocolError)
        } else if same_text(name, "Timeout") {
            Some(FailureReason::Timeout)
        } else {
            None
        }
    }

    /// Every failure is found again under its own name.
    pub proof fn lemma_named_label(self)
        ensures
            FailureReason::named(self.label()) == Some(self),
    {
        reveal_strlit("BusBusy");
        assert("BusBusy"@.len() == 7 && "BusBusy"@[0] == 'B');
        reveal_strlit("DeviceNotResponding");
        assert("DeviceNotResponding"@.len() == 19 && "DeviceNotResponding"@[0] == 'D');
        reveal_strlit("OutOfRange");
        assert("OutOfRange"@.len() == 10 && "OutOfRange"@[0] == 'O');
        reveal_strlit("ProtocolError");
        assert("ProtocolError"@.len() == 13 && "ProtocolError"@[0] == 'P');
        reveal_strlit("Timeout");
        assert("Timeout"@.len() == 7 && "Timeout"@[0] == 'T');
    }
}

} // verus!
