use vstd::prelude::*;

verus! {

/// What every component of the node can say of itself: its own name, the
/// device it runs on and the place where the device stands.
pub trait IUtility {
    spec fn urn_text(&self) -> Seq<char>;

    spec fn device_urn_text(&self) -> Seq<char>;

    spec fn location_urn_text(&self) -> Seq<char>;

    fn urn(&self) -> (r: String)
        ensures
            r@ == self.urn_text(),
    ;

    fn device_urn(&self) -> (r: String)
        ensures
            r@ == self.device_urn_text(),
    ;

    fn location_urn(&self) -> (r: String)
        ensures
            r@ == self.location_urn_text(),
    ;
}

} // verus!
