use vstd::prelude::*;

use crate::global_attributes::{AttrPair, AttrView};
use crate::tags::Tag;

verus! {

/// Text drawn to the reader's attention, historically bold.
#[derive(Debug, Clone)]
pub struct B;

impl Tag for B {
    open spec fn name_spec(&self) -> Seq<char> {
        "b"@
    }

    open spec fn open_spec(&self) -> bool {
        true
    }

    open spec fn close_spec(&self) -> bool {
        true
    }

    open spec fn attrs_spec(&self) -> Option<Seq<AttrView>> {
        None
    }

    fn name(&self) -> &'static str {
        "b"
    }

    fn open_tag(&self) -> bool {
        true
    }

    fn close_tag(&self) -> bool {
        true
    }

    fn attributes(&self) -> Option<Vec<AttrPair>> {
        None
    }
}

} // verus!
