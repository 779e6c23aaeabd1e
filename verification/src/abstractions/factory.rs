use crate::abstractions::utility::IUtility;
use crate::enums::error::SensingError;
use vstd::prelude::*;

verus! {

/// A store that hands out what it holds under a key. Keys are matched
/// exactly.
pub trait IFactory<T>: IUtility {
    /// Whether the store keeps its own rules.
    spec fn valid(&self) -> bool;

    /// What the store holds under a key, if anything.
    spec fn held(&self, key: Seq<char>) -> Option<T>;

    fn get(&self, key: &str) -> (r: Result<&T, SensingError>)
        requires
            self.valid(),
        ensures
            match r {
                Ok(item) => self.held(key@) == Some(*item),
                Err(e) => e == SensingError::NotFound && self.held(key@) is None,
            },
    ;
}

} // verus!
