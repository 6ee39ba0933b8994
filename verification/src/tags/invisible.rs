use vstd::prelude::*;

use crate::global_attributes::{AttrPair, AttrView};
use crate::tags::Tag;

verus! {

/// Hosts raw text as a pseudo-child without emitting markup.
///
/// A structural variant: it emits neither marker, and its name is the
/// empty sentinel, which the renderer never reads.
#[derive(Debug, Clone)]
pub struct Invisible;

impl Tag for Invisible {
    open spec fn name_spec(&self) -> Seq<char> {
        ""@
    }

    open spec fn open_spec(&self) -> bool {
        false
    }

    open spec fn close_spec(&self) -> bool {
        false
    }

    open spec fn attrs_spec(&self) -> Option<Seq<AttrView>> {
        None
    }

    fn name(&self) -> &'static str {
        ""
    }

    fn open_tag(&self) -> bool {
        false
    }

    fn close_tag(&self) -> bool {
        false
    }

    fn attributes(&self) -> Option<Vec<AttrPair>> {
        None
    }
}

} // verus!
