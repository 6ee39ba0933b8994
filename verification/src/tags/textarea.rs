//! The textarea element.

use vstd::prelude::*;

use crate::global_attributes::{pair_of, AttrPair, AttrView, Attribute};
use crate::strutil::{decimal_string, decimal_text};
use crate::tags::Tag;

verus! {

/// The `name` attribute of a text area.
#[derive(Debug, Clone)]
struct Name {
    value: String,
}

impl Attribute for Name {
    closed spec fn name_spec(&self) -> Seq<char> {
        "name"@
    }

    closed spec fn value_spec(&self) -> Seq<char> {
        self.value@
    }

    fn name(&self) -> &'static str {
        "name"
    }

    fn value(&self) -> String {
        self.value.clone()
    }
}

/// The `rows` attribute of a text area.
#[derive(Debug, Clone)]
struct Rows {
    count: usize,
}

impl Attribute for Rows {
    closed spec fn name_spec(&self) -> Seq<char> {
        "rows"@
    }

    closed spec fn value_spec(&self) -> Seq<char> {
        decimal_text(self.count as nat)
    }

    fn name(&self) -> &'static str {
        "rows"
    }

    fn value(&self) -> String {
        decimal_string(self.count)
    }
}

/// The `cols` attribute of a text area.
#[derive(Debug, Clone)]
struct Cols {
    count: usize,
}

impl Attribute for Cols {
    closed spec fn name_spec(&self) -> Seq<char> {
        "cols"@
    }

    closed spec fn value_spec(&self) -> Seq<char> {
        decimal_text(self.count as nat)
    }

    fn name(&self) -> &'static str {
        "cols"
    }

    fn value(&self) -> String {
        decimal_string(self.count)
    }
}

/// A multi-line text input, with a name and its stated dimensions.
#[derive(Debug, Clone)]
pub struct Textarea {
    name: Name,
    rows: Rows,
    cols: Cols,
}

impl Textarea {
    /// A text area with the given control name and dimensions.
    pub fn new(name: &str, rows: usize, cols: usize) -> (r: Self)
        ensures
            r.attrs_spec() == Some(
                seq![
                    AttrView { name: "name"@, value: name@ },
                    AttrView { name: "rows"@, value: decimal_text(rows as nat) },
                    AttrView { name: "cols"@, value: decimal_text(cols as nat) },
                ],
            ),
    {
        Textarea {
            name: Name { value: name.to_owned() },
            rows: Rows { count: rows },
            cols: Cols { count: cols },
        }
    }
}

impl Tag for Textarea {
    open spec fn name_spec(&self) -> Seq<char> {
        "textarea"@
    }

    open spec fn open_spec(&self) -> bool {
        true
    }

    open spec fn close_spec(&self) -> bool {
        true
    }

    closed spec fn attrs_spec(&self) -> Option<Seq<AttrView>> {
        Some(
            seq![
                AttrView { name: "name"@, value: self.name.value_spec() },
                AttrView { name: "rows"@, value: self.rows.value_spec() },
                AttrView { name: "cols"@, value: self.cols.value_spec() },
            ],
        )
    }

    fn name(&self) -> &'static str {
        "textarea"
    }

    fn open_tag(&self) -> bool {
        true
    }

    fn close_tag(&self) -> bool {
        true
    }

    fn attributes(&self) -> Option<Vec<AttrPair>> {
        let v = vec![pair_of(&self.name), pair_of(&self.rows), pair_of(&self.cols)];
        proof {
            assert(crate::global_attributes::pairs_view(v@) =~= self.attrs_spec()->Some_0);
        }
        Some(v)
    }
}

} // verus!
