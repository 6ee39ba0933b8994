//! The button element.

use vstd::prelude::*;

use crate::global_attributes::{pair_of, AttrPair, AttrView, Attribute};
use crate::tags::Tag;

verus! {

/// The `type` attribute of a button.
#[derive(Debug, Clone)]
pub enum Type {
    Submit,
}

impl Attribute for Type {
    open spec fn name_spec(&self) -> Seq<char> {
        "type"@
    }

    open spec fn value_spec(&self) -> Seq<char> {
        "submit"@
    }

    fn name(&self) -> &'static str {
        "type"
    }

    fn value(&self) -> String {
        "submit".to_owned()
    }
}

/// A button.
#[derive(Debug, Clone)]
pub struct Button {
    type_: Type,
}

impl Button {
    /// A submit button.
    pub fn new() -> (r: Self)
        ensures
            r.attrs_spec() == Some(seq![AttrView { name: "type"@, value: "submit"@ }]),
    {
        Button { type_: Type::Submit }
    }
}

impl Default for Button {
    fn default() -> (r: Self)
        ensures
            r.attrs_spec() == Some(seq![AttrView { name: "type"@, value: "submit"@ }]),
    {
        Button::new()
    }
}

impl Tag for Button {
    open spec fn name_spec(&self) -> Seq<char> {
        "button"@
    }

    open spec fn open_spec(&self) -> bool {
        true
    }

    open spec fn close_spec(&self) -> bool {
        true
    }

    closed spec fn attrs_spec(&self) -> Option<Seq<AttrView>> {
        Some(seq![AttrView { name: "type"@, value: self.type_.value_spec() }])
    }

    fn name(&self) -> &'static str {
        "button"
    }

    fn open_tag(&self) -> bool {
        true
    }

    fn close_tag(&self) -> bool {
        true
    }

    fn attributes(&self) -> Option<Vec<AttrPair>> {
        let v = vec![pair_of(&self.type_)];
        proof {
            assert(crate::global_attributes::pairs_view(v@) =~= self.attrs_spec()->Some_0);
        }
        Some(v)
    }
}

} // verus!
