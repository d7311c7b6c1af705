//! Name-service bindings controlled by an owner.

use vstd::prelude::*;

verus! {

/// A name-service record. Connections over such records are not yet backed
/// by data; the type gives those connections their node shape.
#[derive(Clone, Debug, PartialEq, Eq)]
pub struct NameService {
    pub name: String,
}

impl View for NameService {
    type V = Seq<char>;

    open spec fn view(&self) -> Seq<char> {
        self.name@
    }
}

} // verus!
