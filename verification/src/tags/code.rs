use vstd::prelude::*;

use crate::global_attributes::{AttrPair, AttrView};
use crate::tags::Tag;

verus! {

/// A fragment of computer code.
#[derive(Debug, Clone)]
pub struct Code;

impl Tag for Code {
    open spec fn name_spec(&self) -> Seq<char> {
        "code"@
    }

    open spec fn open_spec(&self) -> bool {
        true
    }

    open spec fn close_spec(&self) -> bool {
        true
    }

    open spec fn attrs_spec(&self) -> Option<Seq<AttrView>> {
        None
    }

    fn name(&self) -> &'static str {
        "code"
    }

    fn open_tag(&self) -> bool {
        true
    }

    fn close_tag(&self) -> bool {
        true
    }

    fn attributes(&self) -> Option<Vec<AttrPair>> {
        None
    }
}

} // verus!
