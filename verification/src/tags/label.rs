//! The label element.

use vstd::prelude::*;

use crate::global_attributes::{pair_of, AttrPair, AttrView, Attribute};
use crate::tags::Tag;

verus! {

/// The `for` attribute: the identifier of the labelled control.
#[derive(Debug, Clone)]
pub struct For {
    value: String,
}

impl For {
    /// Make a `for` attribute naming the given control.
    pub fn new(for_: &str) -> (r: Self)
        ensures
            r.value_spec() == for_@,
    {
        For { value: for_.to_owned() }
    }
}

impl Attribute for For {
    open spec fn name_spec(&self) -> Seq<char> {
        "for"@
    }

    closed spec fn value_spec(&self) -> Seq<char> {
        self.value@
    }

    fn name(&self) -> &'static str {
        "for"
    }

    fn value(&self) -> String {
        self.value.clone()
    }
}

/// A caption for another control.
#[derive(Debug, Clone)]
pub struct Label {
    for_: For,
}

impl Label {
    /// A label for the control with the given identifier.
    pub fn new(for_: &str) -> (r: Self)
        ensures
            r.attrs_spec() == Some(seq![AttrView { name: "for"@, value: for_@ }]),
    {
        Label { for_: For::new(for_) }
    }
}

impl Tag for Label {
    open spec fn name_spec(&self) -> Seq<char> {
        "label"@
    }

    open spec fn open_spec(&self) -> bool {
        true
    }

    open spec fn close_spec(&self) -> bool {
        true
    }

    closed spec fn attrs_spec(&self) -> Option<Seq<AttrView>> {
        Some(seq![AttrView { name: "for"@, value: self.for_.value_spec() }])
    }

    fn name(&self) -> &'static str {
        "label"
    }

    fn open_tag(&self) -> bool {
        true
    }

    fn close_tag(&self) -> bool {
        true
    }

    fn attributes(&self) -> Option<Vec<AttrPair>> {
        let v = vec![pair_of(&self.for_)];
        proof {
            assert(crate::global_attributes::pairs_view(v@) =~= self.attrs_spec()->Some_0);
        }
        Some(v)
    }
}

} // verus!
