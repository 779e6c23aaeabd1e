use crate::abstractions::utility::IUtility;
use crate::dtos::measurement::sample::Exchange;
use crate::enums::failure::FailureReason;
use vstd::prelude::*;

verus! {

/// A driver of one part. It turns what an exchange with the part brought
/// back into a reading of kind `T`, and keeps nothing between two reads.
pub trait ISensor<T>: IUtility {
    /// The short name of the part.
    spec fn name_text(&self) -> Seq<char>;

    /// The reading that the driver makes of an exchange.
    spec fn reading(&self, exchange: Exchange) -> Result<T, FailureReason>;

    fn name(&self) -> (r: String)
        ensures
            r@ == self.name_text(),
    ;

    fn read(&self, exchange: Exchange) -> (r: Result<T, FailureReason>)
        ensures
            r == self.reading(exchange),
    ;
}

} // verus!
