//! The attribute capability, and the global attributes every node accepts.

use vstd::prelude::*;

/// The `class` global attribute.
pub mod class;
/// The `id` global attribute.
pub mod id;
/// The `lang` global attribute.
pub mod lang;
/// The `style` global attribute.
pub mod style;
/// The `title` global attribute.
pub mod title;

pub use class::Class;
pub use id::Id;
pub use lang::Lang;
pub use style::Style;
pub use title::Title;

verus! {

/// The mathematical value of one attribute: its name and its value.
#[verifier::ext_equal]
pub ghost struct AttrView {
    pub name: Seq<char>,
    pub value: Seq<char>,
}

/// An attribute captured as an owned pair of strings.
///
/// Attribute values are heterogeneous capabilities; a node stores each one
/// as the plain pair it renders as.
#[derive(Debug, Clone)]
pub struct AttrPair {
    pub name: String,
    pub value: String,
}

impl View for AttrPair {
    type V = AttrView;

    open spec fn view(&self) -> AttrView {
        AttrView { name: self.name@, value: self.value@ }
    }
}

/// The capability an attribute offers: a fixed name and a computed value.
pub trait Attribute: Sized {
    /// The attribute's name, as a mathematical value.
    spec fn name_spec(&self) -> Seq<char>;

    /// The attribute's value, as a mathematical value.
    spec fn value_spec(&self) -> Seq<char>;

    /// The attribute's name.
    fn name(&self) -> (r: &'static str)
        ensures
            r@ == self.name_spec(),
    ;

    /// The attribute's value.
    fn value(&self) -> (r: String)
        ensures
            r@ == self.value_spec(),
    ;
}

/// The pair an attribute renders as.
pub open spec fn attr_view_of<A: Attribute>(a: A) -> AttrView {
    AttrView { name: a.name_spec(), value: a.value_spec() }
}

/// Capture an attribute as an owned pair.
pub fn pair_of<A: Attribute>(a: &A) -> (r: AttrPair)
    ensures
        r@ == attr_view_of(*a),
{
    AttrPair { name: a.name().to_owned(), value: a.value() }
}

/// The mathematical values of a list of captured pairs.
pub open spec fn pairs_view(s: Seq<AttrPair>) -> Seq<AttrView> {
    s.map_values(|p: AttrPair| p@)
}

/// The mathematical values of an optional list of captured pairs.
pub open spec fn opt_pairs_view(r: Option<Vec<AttrPair>>) -> Option<Seq<AttrView>> {
    match r {
        Some(v) => Some(pairs_view(v@)),
        None => None,
    }
}

impl Attribute for (&'static str, String) {
    open spec fn name_spec(&self) -> Seq<char> {
        self.0@
    }

    open spec fn value_spec(&self) -> Seq<char> {
        self.1@
    }

    fn name(&self) -> &'static str {
        self.0
    }

    fn value(&self) -> String {
        self.1.clone()
    }
}

impl<'a> Attribute for (&'static str, &'a str) {
    open spec fn name_spec(&self) -> Seq<char> {
        self.0@
    }

    open spec fn value_spec(&self) -> Seq<char> {
        self.1@
    }

    fn name(&self) -> &'static str {
        self.0
    }

    fn value(&self) -> String {
        self.1.to_owned()
    }
}

} // verus!
