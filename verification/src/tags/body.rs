use vstd::prelude::*;

use crate::global_attributes::{AttrPair, AttrView};
use crate::tags::Tag;

verus! {

/// The document body element.
#[derive(Debug, Clone)]
pub struct Body;

impl Tag for Body {
    open spec fn name_spec(&self) -> Seq<char> {
        "body"@
    }

    open spec fn open_spec(&self) -> bool {
        true
    }

    open spec fn close_spec(&self) -> bool {
        true
    }

    open spec fn attrs_spec(&self) -> Option<Seq<AttrView>> {
        None
    }

    fn name(&self) -> &'static str {
        "body"
    }

    fn open_tag(&self) -> bool {
        true
    }

    fn close_tag(&self) -> bool {
        true
    }

    fn attributes(&self) -> Option<Vec<AttrPair>> {
        None
    }
}

} // verus!
