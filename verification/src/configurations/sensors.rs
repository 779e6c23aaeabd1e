use crate::dtos::configurations::sensors::SensorsConfigDTO;
use crate::enums::error::SensingError;
use crate::enums::kind::SensorKind;
use crate::values::text::upper;
use vstd::prelude::*;

verus! {

/// The parts to read, in the order in which they are to be read. No part
/// stands twice.
#[derive(Clone, Debug, PartialEq, Eq)]
pub struct SensorsConfig {
    pub included: Vec<SensorKind>,
}

/// The parts that a list of names selects, in the order of their first
/// mention, or the position of the first name that selects none.
pub open spec fn selection(names: Seq<Seq<char>>) -> Result<Seq<SensorKind>, SensingError>
    decreases names.len(),
{
    if names.len() == 0 {
        Ok(Seq::empty())
    } else {
        match selection(names.drop_last()) {
            Err(e) => Err(e),
            Ok(kinds) => match SensorKind::lookup(names.last()) {
                None => Err(SensingError::UnknownSensor { position: (names.len() - 1) as usize }),
                Some(kind) => if kinds.contains(kind) {
                    Ok(kinds)
                } else {
                    Ok(kinds.push(kind))
                },
            },
        }
    }
}

/// Whether no part stands twice in a list.
pub open spec fn distinct(kinds: Seq<SensorKind>) -> bool {
    forall|i: int, j: int| 0 <= i < j < kinds.len() ==> kinds[i] != kinds[j]
}

/// Whether `kind` stands in `kinds`.
pub fn has_kind(kinds: &Vec<SensorKind>, kind: SensorKind) -> (r: bool)
    ensures
        r == kinds@.contains(kind),
{
    let mut i: usize = 0;
    while i < kinds.len()
        invariant
            i <= kinds.len(),
            forall|j: int| 0 <= j < i ==> kinds@[j] != kind,
        decreases kinds.len() - i,
    {
        if kinds[i] == kind {
            return true;
        }
        i = i + 1;
    }
    false
}

/// A selection names no part twice, and is at most as long as the list of
/// names.
pub proof fn lemma_selection_distinct(names: Seq<Seq<char>>)
    ensures
        selection(names) matches Ok(kinds) ==> distinct(kinds) && kinds.len() <= names.len(),
    decreases names.len(),
{
    if names.len() > 0 {
        lemma_selection_distinct(names.drop_last());
    }
}

/// Whether `key` is the upper-case form of one of the names.
pub open spec fn names_have_key(names: Seq<Seq<char>>, key: Seq<char>) -> bool {
    exists|j: int| 0 <= j < names.len() && upper(#[trigger] names[j]) == key
}

/// Whether `key` is the key of one of the parts.
pub open spec fn kinds_have_key(kinds: Seq<SensorKind>, key: Seq<char>) -> bool {
    exists|i: int| 0 <= i < kinds.len() && (#[trigger] kinds[i]).key() == key
}

/// The keys of a selection are the configured names in capitals: a text is
/// the key of a selected part exactly if it is the upper-case form of one of
/// the names.
#[verifier::spinoff_prover]
pub proof fn lemma_selection_keys(names: Seq<Seq<char>>, key: Seq<char>)
    requires
        selection(names) is Ok,
    ensures
        kinds_have_key(selection(names)->Ok_0, key) == names_have_key(names, key),
    decreases names.len(),
{
    let after = selection(names)->Ok_0;
    if names.len() > 0 {
        let front = names.drop_last();
        lemma_selection_keys(front, key);
        let before = selection(front)->Ok_0;
        let last = names.len() - 1;
        let kind = SensorKind::lookup(names.last())->0;
        SensorKind::lemma_lookup_key(names.last());
        assert(upper(names[last]) == kind.key());
        if names_have_key(names, key) {
            let j = choose|j: int| 0 <= j < names.len() && upper(#[trigger] names[j]) == key;
            if j < last {
                assert(front[j] == names[j]);
                assert(names_have_key(front, key));
                let i = choose|i: int| 0 <= i < before.len() && (#[trigger] before[i]).key() == key;
                assert(after[i] == before[i]);
            } else if before.contains(kind) {
                let i = choose|i: int| 0 <= i < before.len() && before[i] == kind;
                assert(after[i].key() == key);
            } else {
                assert(after[before.len() as int].key() == key);
            }
            assert(kinds_have_key(after, key));
        }
        if kinds_have_key(after, key) {
            let i = choose|i: int| 0 <= i < after.len() && (#[trigger] after[i]).key() == key;
            if i < before.len() {
                assert(after[i] == before[i]);
                assert(kinds_have_key(before, key));
                let j = choose|j: int| 0 <= j < front.len() && upper(#[trigger] front[j]) == key;
                assert(names[j] == front[j]);
            } else {
                assert(after[i] == kind);
                assert(upper(names[last]) == key);
            }
            assert(names_have_key(names, key));
        }
    }
}

impl SensorsConfig {
    /// No part stands twice.
    pub open spec fn wf(&self) -> bool {
        distinct(self.included@)
    }

    /// The configuration of a node that was told nothing else: the BME280,
    /// then the BH1750.
    pub fn new() -> (r: Self)
        ensures
            r.included@ == seq![SensorKind::Bme280, SensorKind::Bh1750],
            r.wf(),
    {
        let mut included: Vec<SensorKind> = Vec::new();
        included.push(SensorKind::Bme280);
        included.push(SensorKind::Bh1750);
        SensorsConfig { included }
    }

    /// The configuration that the given names select. Names are matched
    /// without regard to the case of their letters; a part named twice is
    /// read once, at its first position; a name that the catalog does not
    /// know is refused.
    #[verifier::spinoff_prover]
    pub fn from_dto(dto: &SensorsConfigDTO) -> (r: Result<Self, SensingError>)
        ensures
            match r {
                Ok(config) => selection(dto.names()) == Ok::<Seq<SensorKind>, SensingError>(
                    config.included@,
                ) && config.wf(),
                Err(e) => selection(dto.names()) == Err::<Seq<SensorKind>, SensingError>(e),
            },
    {
        let mut included: Vec<SensorKind> = Vec::new();
        let mut i: usize = 0;
        while i < dto.included.len()
            invariant
                i <= dto.included.len(),
                selection(dto.names().take(i as int)) == Ok::<Seq<SensorKind>, SensingError>(
                    included@,
                ),
            decreases dto.included.len() - i,
        {
            proof {
                assert(dto.names().take(i + 1).drop_last() =~= dto.names().take(i as int));
                assert(dto.names().take(i + 1).last() == dto.included@[i as int]@);
                if i + 1 < dto.included.len() {
                } else {
                    assert(dto.names().take(i + 1) =~= dto.names());
                }
            }
            match SensorKind::from_name(dto.included[i].as_str()) {
                None => {
                    proof {
                        lemma_selection_fails_on(dto.names(), i as int);
                    }
                    return Err(SensingError::UnknownSensor { position: i });
                },
                Some(kind) => {
                    if !has_kind(&included, kind) {
                        included.push(kind);
                    }
                },
            }
            i = i + 1;
        }
        proof {
            assert(dto.names().take(i as int) =~= dto.names());
            lemma_selection_distinct(dto.names());
        }
        Ok(SensorsConfig { included })
    }
}

/// A list of names whose first `k` names select parts and whose name at
/// `k` selects none is refused at position `k`.
pub proof fn lemma_selection_fails_on(names: Seq<Seq<char>>, k: int)
    requires
        0 <= k < names.len(),
        selection(names.take(k)) is Ok,
        SensorKind::lookup(names[k]) is None,
    ensures
        selection(names) == Err::<Seq<SensorKind>, SensingError>(
            SensingError::UnknownSensor { position: k as usize },
        ),
    decreases names.len(),
{
    if names.len() == k + 1 {
        assert(names.drop_last() =~= names.take(k));
    } else {
        assert(names.drop_last().take(k) =~= names.take(k));
        lemma_selection_fails_on(names.drop_last(), k);
    }
}

} // verus!
