use vstd::prelude::*;

use crate::global_attributes::Attribute;

verus! {

/// The `title` global attribute.
#[derive(Debug, Clone)]
pub struct Title {
    value: String,
}

impl Title {
    /// Make a `title` attribute carrying the given advisory text.
    pub fn new(title: &str) -> (r: Self)
        ensures
            r.value_spec() == title@,
    {
        Title { value: title.to_owned() }
    }
}

impl Attribute for Title {
    open spec fn name_spec(&self) -> Seq<char> {
        "title"@
    }

    closed spec fn value_spec(&self) -> Seq<char> {
        self.value@
    }

    fn name(&self) -> &'static str {
        "title"
    }

    fn value(&self) -> String {
        self.value.clone()
    }
}

} // verus!
