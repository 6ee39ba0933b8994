//! The table header cell element.

use vstd::prelude::*;

use crate::global_attributes::{pair_of, AttrPair, AttrView, Attribute};
use crate::strutil::decimal_text;
use crate::tags::td::Colspan;
use crate::tags::Tag;

verus! {

/// Shortcut for [`Th::default()`].
pub fn th() -> (r: Th)
    ensures
        r.attrs_spec() is None,
{
    Th::default()
}

/// A table header cell, with an optional column span.
#[derive(Debug, Clone)]
pub struct Th {
    colspan: Option<Colspan>,
}

impl Th {
    /// A header cell spanning the given number of columns, which must be
    /// at least one.
    pub fn colspan(span: usize) -> (r: Self)
        requires
            span >= 1,
        ensures
            r.attrs_spec() == Some(
                seq![AttrView { name: "colspan"@, value: decimal_text(span as nat) }],
            ),
    {
        Th { colspan: Some(Colspan::new(span)) }
    }
}

impl Default for Th {
    fn default() -> (r: Self)
        ensures
            r.attrs_spec() is None,
    {
        Th { colspan: None }
    }
}

impl Tag for Th {
    open spec fn name_spec(&self) -> Seq<char> {
        "th"@
    }

    open spec fn open_spec(&self) -> bool {
        true
    }

    open spec fn close_spec(&self) -> bool {
        true
    }

    closed spec fn attrs_spec(&self) -> Option<Seq<AttrView>> {
        match self.colspan {
            Option::Some(c) => Some(seq![AttrView { name: "colspan"@, value: c.value_spec() }]),
            Option::None => None,
        }
    }

    fn name(&self) -> &'static str {
        "th"
    }

    fn open_tag(&self) -> bool {
        true
    }

    fn close_tag(&self) -> bool {
        true
    }

    fn attributes(&self) -> Option<Vec<AttrPair>> {
        match &self.colspan {
            Some(c) => {
                let v = vec![pair_of(c)];
                proof {
                    assert(crate::global_attributes::pairs_view(v@) =~= self.attrs_spec()->Some_0);
                }
                Some(v)
            },
            None => None,
        }
    }
}

} // verus!
