use vstd::prelude::*;

use crate::global_attributes::Attribute;

verus! {

/// The `class` global attribute, as a single attribute value.
///
/// A node normally collects classes through its deduplicated class list;
/// this type carries one class string as an ordinary attribute.
#[derive(Debug, Clone)]
pub struct Class {
    value: String,
}

impl Class {
    /// Make a `class` attribute carrying the given class string.
    pub fn new(value: &str) -> (r: Self)
        ensures
            r.value_spec() == value@,
    {
        Class { value: value.to_owned() }
    }
}

impl Attribute for Class {
    open spec fn name_spec(&self) -> Seq<char> {
        "class"@
    }

    closed spec fn value_spec(&self) -> Seq<char> {
        self.value@
    }

    fn name(&self) -> &'static str {
        "class"
    }

    fn value(&self) -> String {
        self.value.clone()
    }
}

} // verus!
