use vstd::prelude::*;

use crate::global_attributes::Attribute;

verus! {

/// The `style` global attribute.
#[derive(Debug, Clone)]
pub struct Style {
    value: String,
}

impl Style {
    /// Make a `style` attribute carrying the given style text.
    pub fn new(style: &str) -> (r: Self)
        ensures
            r.value_spec() == style@,
    {
        Style { value: style.to_owned() }
    }
}

impl Attribute for Style {
    open spec fn name_spec(&self) -> Seq<char> {
        "style"@
    }

    closed spec fn value_spec(&self) -> Seq<char> {
        self.value@
    }

    fn name(&self) -> &'static str {
        "style"
    }

    fn value(&self) -> String {
        self.value.clone()
    }
}

} // verus!
