//! The description registry: a type carries the human-readable description of
//! a response; the default description is empty.

use vstd::prelude::*;

verus! {

/// A type in the registry names one response description.
pub trait ResponseDescriptionTrait {
    /// The description this tag stands for.
    spec fn description_spec() -> Seq<char>;

    /// The description text.
    fn description() -> (r: &'static str)
        ensures
            r@ == Self::description_spec(),
    ;
}

/// Marker for the default, empty description.
pub struct DefaultDescription {}

impl ResponseDescriptionTrait for DefaultDescription {
    open spec fn description_spec() -> Seq<char> {
        Seq::empty()
    }

    fn description() -> (r: &'static str) {
        proof {
            reveal_strlit("");
            assert(""@ =~= Seq::<char>::empty());
        }
        ""
    }
}

} // verus!
