use vstd::prelude::*;

use crate::global_attributes::{AttrPair, AttrView};
use crate::tags::Tag;

verus! {

/// Centered text; superseded by styling.
#[derive(Debug, Clone)]
pub struct Center;

impl Tag for Center {
    open spec fn name_spec(&self) -> Seq<char> {
        "center"@
    }

    open spec fn open_spec(&self) -> bool {
        true
    }

    open spec fn close_spec(&self) -> bool {
        true
    }

    open spec fn attrs_spec(&self) -> Option<Seq<AttrView>> {
        None
    }

    fn name(&self) -> &'static str {
        "center"
    }

    fn open_tag(&self) -> bool {
        true
    }

    fn close_tag(&self) -> bool {
        true
    }

    fn attributes(&self) -> Option<Vec<AttrPair>> {
        None
    }
}

} // verus!
