//! The anchor element.

use vstd::prelude::*;

use crate::global_attributes::{attr_view_of, pair_of, AttrPair, AttrView, Attribute};
use crate::tags::link::Href;
use crate::tags::Tag;

verus! {

/// The `target` attribute of an anchor.
#[derive(Debug, Clone)]
pub enum Target {
    Blank,
    Parent,
    Self_,
    Top,
}

impl Attribute for Target {
    open spec fn name_spec(&self) -> Seq<char> {
        "target"@
    }

    open spec fn value_spec(&self) -> Seq<char> {
        match self {
            Target::Blank => "blank"@,
            Target::Parent => "parent"@,
            Target::Self_ => "self"@,
            Target::Top => "top"@,
        }
    }

    fn name(&self) -> &'static str {
        "target"
    }

    fn value(&self) -> String {
        match self {
            Target::Blank => "blank".to_owned(),
            Target::Parent => "parent".to_owned(),
            Target::Self_ => "self".to_owned(),
            Target::Top => "top".to_owned(),
        }
    }
}

/// An anchor, with an optional address and an optional target.
#[derive(Debug, Clone)]
pub struct A {
    href: Option<Href>,
    target: Option<Target>,
}

/// The tag-specific attributes of an anchor: its address, then its target,
/// each only when set; no attributes at all when neither is set.
pub open spec fn anchor_attrs(
    href: Option<Seq<char>>,
    target: Option<AttrView>,
) -> Option<Seq<AttrView>> {
    match (href, target) {
        (Option::None, Option::None) => None,
        (Option::None, Option::Some(t)) => Some(seq![t]),
        (Option::Some(h), Option::None) => Some(seq![AttrView { name: "href"@, value: h }]),
        (Option::Some(h), Option::Some(t)) => Some(
            seq![AttrView { name: "href"@, value: h }, t],
        ),
    }
}

impl A {
    /// The anchor's address, when set.
    pub closed spec fn href_spec(&self) -> Option<Seq<char>> {
        match self.href {
            Option::Some(h) => Some(h.value_spec()),
            Option::None => None,
        }
    }

    /// The anchor's target attribute, when set.
    pub closed spec fn target_spec(&self) -> Option<AttrView> {
        match self.target {
            Option::Some(t) => Some(attr_view_of(t)),
            Option::None => None,
        }
    }

    /// An anchor with no address and no target.
    pub fn new() -> (r: Self)
        ensures
            r.href_spec() is None,
            r.target_spec() is None,
    {
        A { href: None, target: None }
    }

    /// An anchor pointing at the given address.
    pub fn href(href: &str) -> (r: Self)
        ensures
            r.href_spec() == Some(href@),
            r.target_spec() is None,
    {
        Self::new().with_href(href)
    }

    /// Set the anchor's address.
    pub fn with_href(self, href: &str) -> (r: Self)
        ensures
            r.href_spec() == Some(href@),
            r.target_spec() == self.target_spec(),
    {
        A { href: Some(Href::new(href)), target: self.target }
    }

    /// Set the anchor's target.
    pub fn with_target(self, target: Target) -> (r: Self)
        ensures
            r.href_spec() == self.href_spec(),
            r.target_spec() == Some(attr_view_of(target)),
    {
        A { href: self.href, target: Some(target) }
    }
}

impl Default for A {
    fn default() -> (r: Self)
        ensures
            r.href_spec() is None,
            r.target_spec() is None,
    {
        A::new()
    }
}

impl Tag for A {
    open spec fn name_spec(&self) -> Seq<char> {
        "a"@
    }

    open spec fn open_spec(&self) -> bool {
        true
    }

    open spec fn close_spec(&self) -> bool {
        true
    }

    open spec fn attrs_spec(&self) -> Option<Seq<AttrView>> {
        anchor_attrs(self.href_spec(), self.target_spec())
    }

    fn name(&self) -> &'static str {
        "a"
    }

    fn open_tag(&self) -> bool {
        true
    }

    fn close_tag(&self) -> bool {
        true
    }

    fn attributes(&self) -> Option<Vec<AttrPair>> {
        match (&self.href, &self.target) {
            (None, None) => None,
            (None, Some(t)) => {
                let v = vec![pair_of(t)];
                proof {
                    assert(crate::global_attributes::pairs_view(v@) =~= self.attrs_spec()->Some_0);
                }
                Some(v)
            },
            (Some(h), None) => {
                let v = vec![pair_of(h)];
                proof {
                    assert(crate::global_attributes::pairs_view(v@) =~= self.attrs_spec()->Some_0);
                }
                Some(v)
            },
            (Some(h), Some(t)) => {
                let v = vec![pair_of(h), pair_of(t)];
                proof {
                    assert(crate::global_attributes::pairs_view(v@) =~= self.attrs_spec()->Some_0);
                }
                Some(v)
            },
        }
    }
}

} // verus!
