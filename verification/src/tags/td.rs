//! The table data cell element.

use vstd::prelude::*;

use crate::global_attributes::{pair_of, AttrPair, AttrView, Attribute};
use crate::strutil::{decimal_string, decimal_text};
use crate::tags::Tag;

verus! {

/// The `colspan` attribute: how many columns a cell spans.  The span is
/// always at least one.
#[derive(Debug, Clone)]
pub struct Colspan {
    span: usize,
}

impl Colspan {
    /// A span over the given number of columns.
    pub fn new(span: usize) -> (r: Self)
        requires
            span >= 1,
        ensures
            r.value_spec() == decimal_text(span as nat),
    {
        Colspan { span }
    }
}

impl Attribute for Colspan {
    open spec fn name_spec(&self) -> Seq<char> {
        "colspan"@
    }

    closed spec fn value_spec(&self) -> Seq<char> {
        decimal_text(self.span as nat)
    }

    fn name(&self) -> &'static str {
        "colspan"
    }

    fn value(&self) -> String {
        decimal_string(self.span)
    }
}

/// Shortcut for [`Td::default()`].
pub fn td() -> (r: Td)
    ensures
        r.attrs_spec() is None,
{
    Td::default()
}

/// A table data cell, with an optional column span.
#[derive(Debug, Clone)]
pub struct Td {
    colspan: Option<Colspan>,
}

impl Td {
    /// A cell spanning the given number of columns, which must be at
    /// least one.
    pub fn colspan(span: usize) -> (r: Self)
        requires
            span >= 1,
        ensures
            r.attrs_spec() == Some(
                seq![AttrView { name: "colspan"@, value: decimal_text(span as nat) }],
            ),
    {
        Td { colspan: Some(Colspan::new(span)) }
    }
}

impl Default for Td {
    fn default() -> (r: Self)
        ensures
            r.attrs_spec() is None,
    {
        Td { colspan: None }
    }
}

impl Tag for Td {
    open spec fn name_spec(&self) -> Seq<char> {
        "td"@
    }

    open spec fn open_spec(&self) -> bool {
        true
    }

    open spec fn close_spec(&self) -> bool {
        true
    }

    closed spec fn attrs_spec(&self) -> Option<Seq<AttrView>> {
        match self.colspan {
            Option::Some(c) => Some(seq![AttrView { name: "colspan"@, value: c.value_spec() }]),
            Option::None => None,
        }
    }

    fn name(&self) -> &'static str {
        "td"
    }

    fn open_tag(&self) -> bool {
        true
    }

    fn close_tag(&self) -> bool {
        true
    }

    fn attributes(&self) -> Option<Vec<AttrPair>> {
        match &self.colspan {
            Some(c) => {
                let v = vec![pair_of(c)];
                proof {
                    assert(crate::global_attributes::pairs_view(v@) =~= self.attrs_spec()->Some_0);
                }
                Some(v)
            },
            None => None,
        }
    }
}

} // verus!
