//! The block quotation element.

use vstd::prelude::*;

use crate::global_attributes::{pair_of, AttrPair, AttrView, Attribute};
use crate::tags::Tag;

verus! {

/// The `cite` attribute: the source of a quotation.
#[derive(Debug, Clone)]
pub struct Cite {
    value: String,
}

impl Attribute for Cite {
    open spec fn name_spec(&self) -> Seq<char> {
        "cite"@
    }

    closed spec fn value_spec(&self) -> Seq<char> {
        self.value@
    }

    fn name(&self) -> &'static str {
        "cite"
    }

    fn value(&self) -> String {
        self.value.clone()
    }
}

/// A block quotation, with an optional citation source.
#[derive(Debug, Clone)]
pub struct Blockquote {
    cite: Option<Cite>,
}

impl Blockquote {
    /// A quotation without a citation.
    pub fn new() -> (r: Self)
        ensures
            r.attrs_spec() is None,
    {
        Blockquote { cite: None }
    }

    /// A quotation citing the given source.
    pub fn cite(citation: &str) -> (r: Self)
        ensures
            r.attrs_spec() == Some(seq![AttrView { name: "cite"@, value: citation@ }]),
    {
        Blockquote { cite: Some(Cite { value: citation.to_owned() }) }
    }
}

impl Default for Blockquote {
    fn default() -> (r: Self)
        ensures
            r.attrs_spec() is None,
    {
        Blockquote::new()
    }
}

impl Tag for Blockquote {
    open spec fn name_spec(&self) -> Seq<char> {
        "blockquote"@
    }

    open spec fn open_spec(&self) -> bool {
        true
    }

    open spec fn close_spec(&self) -> bool {
        true
    }

    closed spec fn attrs_spec(&self) -> Option<Seq<AttrView>> {
        match self.cite {
            Option::Some(c) => Some(seq![AttrView { name: "cite"@, value: c.value_spec() }]),
            Option::None => None,
        }
    }

    fn name(&self) -> &'static str {
        "blockquote"
    }

    fn open_tag(&self) -> bool {
        true
    }

    fn close_tag(&self) -> bool {
        true
    }

    fn attributes(&self) -> Option<Vec<AttrPair>> {
        match &self.cite {
            Some(c) => {
                let v = vec![pair_of(c)];
                proof {
                    assert(crate::global_attributes::pairs_view(v@) =~= self.attrs_spec()->Some_0);
                }
                Some(v)
            },
            None => None,
        }
    }
}

} // verus!
