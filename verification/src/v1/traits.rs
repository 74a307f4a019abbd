//! Traits shared by the request types.

use vstd::prelude::*;

verus! {

/// A value with a fixed name in request URLs.
pub trait Stringify {
    /// The name, as a sequence of characters.
    spec fn name(&self) -> Seq<char>;

    /// The name.
    fn to_str(&self) -> (name: &'static str)
        ensures
            name@ == self.name(),
    ;
}

} // verus!
