use vstd::prelude::*;

verus! {

/// The sensor section of the configuration as it arrives: the names of the
/// parts to read, in the order in which they are to be read.
#[derive(Clone, Debug, PartialEq, Eq)]
pub struct SensorsConfigDTO {
    pub included: Vec<String>,
}

impl SensorsConfigDTO {
    /// The configured names, as texts.
    pub open spec fn names(&self) -> Seq<Seq<char>> {
        Seq::new(self.included@.len(), |i: int| self.included@[i]@)
    }
}

} // verus!
