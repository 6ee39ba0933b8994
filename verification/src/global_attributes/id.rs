use vstd::prelude::*;

use crate::global_attributes::Attribute;

verus! {

/// The `id` global attribute.
#[derive(Debug, Clone)]
pub struct Id {
    value: String,
}

impl Id {
    /// Make an `id` attribute carrying the given identifier.
    pub fn new(value: &str) -> (r: Self)
        ensures
            r.value_spec() == value@,
    {
        Id { value: value.to_owned() }
    }
}

impl Attribute for Id {
    open spec fn name_spec(&self) -> Seq<char> {
        "id"@
    }

    closed spec fn value_spec(&self) -> Seq<char> {
        self.value@
    }

    fn name(&self) -> &'static str {
        "id"
    }

    fn value(&self) -> String {
        self.value.clone()
    }
}

} // verus!
