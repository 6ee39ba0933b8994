//! The script element.

use vstd::prelude::*;

use crate::global_attributes::{pair_of, AttrPair, AttrView, Attribute};
use crate::tags::img::Src;
use crate::tags::Tag;

verus! {

/// A script, optionally loaded from an external source.
#[derive(Debug, Clone)]
pub struct Script {
    src: Option<Src>,
}

impl Script {
    /// An inline script with no source attribute.
    pub fn new() -> (r: Self)
        ensures
            r.attrs_spec() is None,
    {
        Script { src: None }
    }

    /// A script loaded from the given source.
    pub fn src(src: &str) -> (r: Self)
        ensures
            r.attrs_spec() == Some(seq![AttrView { name: "src"@, value: src@ }]),
    {
        Script { src: Some(Src(src.to_owned())) }
    }
}

impl Default for Script {
    fn default() -> (r: Self)
        ensures
            r.attrs_spec() is None,
    {
        Script::new()
    }
}

impl Tag for Script {
    open spec fn name_spec(&self) -> Seq<char> {
        "script"@
    }

    open spec fn open_spec(&self) -> bool {
        true
    }

    open spec fn close_spec(&self) -> bool {
        true
    }

    closed spec fn attrs_spec(&self) -> Option<Seq<AttrView>> {
        match self.src {
            Option::Some(s) => Some(seq![AttrView { name: "src"@, value: s.0@ }]),
            Option::None => None,
        }
    }

    fn name(&self) -> &'static str {
        "script"
    }

    fn open_tag(&self) -> bool {
        true
    }

    fn close_tag(&self) -> bool {
        true
    }

    fn attributes(&self) -> Option<Vec<AttrPair>> {
        match &self.src {
            Some(s) => {
                let v = vec![pair_of(s)];
                proof {
                    assert(crate::global_attributes::pairs_view(v@) =~= self.attrs_spec()->Some_0);
                }
                Some(v)
            },
            None => None,
        }
    }
}

} // verus!
