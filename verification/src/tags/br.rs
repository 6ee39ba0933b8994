use vstd::prelude::*;

use crate::global_attributes::{AttrPair, AttrView};
use crate::tags::Tag;

verus! {

/// A line break: a void element with an opening marker only.
#[derive(Debug, Clone)]
pub struct Br;

impl Tag for Br {
    open spec fn name_spec(&self) -> Seq<char> {
        "br"@
    }

    open spec fn open_spec(&self) -> bool {
        true
    }

    open spec fn close_spec(&self) -> bool {
        false
    }

    open spec fn attrs_spec(&self) -> Option<Seq<AttrView>> {
        None
    }

    fn name(&self) -> &'static str {
        "br"
    }

    fn open_tag(&self) -> bool {
        true
    }

    fn close_tag(&self) -> bool {
        false
    }

    fn attributes(&self) -> Option<Vec<AttrPair>> {
        None
    }
}

} // verus!
