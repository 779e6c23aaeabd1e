use vstd::prelude::*;

verus! {

/// Why a component could not be set up, or a lookup found nothing.
#[derive(Clone, Copy, Debug, PartialEq, Eq, Structural)]
pub enum SensingError {
    /// One of the names that identify the component is empty.
    EmptyUrn,
    /// The configured name at this position is not in the catalog.
    UnknownSensor { position: usize },
    /// The name given to a driver is not the one of its part.
    WrongName,
    /// Nothing is registered under the key.
    NotFound,
}

} // verus!
