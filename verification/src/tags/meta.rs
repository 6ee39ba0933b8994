//! The metadata element.

use vstd::prelude::*;

use crate::global_attributes::{attr_view_of, pair_of, AttrPair, AttrView, Attribute};
use crate::strutil::{decimal_string, decimal_text};
use crate::tags::Tag;

verus! {

/// The `charset` attribute of a metadata entry.
#[derive(Debug, Clone)]
pub enum Charset {
    Utf8,
}

impl Attribute for Charset {
    open spec fn name_spec(&self) -> Seq<char> {
        "charset"@
    }

    open spec fn value_spec(&self) -> Seq<char> {
        "UTF-8"@
    }

    fn name(&self) -> &'static str {
        "charset"
    }

    fn value(&self) -> String {
        "UTF-8".to_owned()
    }
}

/// The `name` attribute of a metadata entry.
#[derive(Debug, Clone)]
pub enum Name {
    Keywords,
    Description,
    Author,
    Viewport,
    Custom(String),
}

impl Attribute for Name {
    open spec fn name_spec(&self) -> Seq<char> {
        "name"@
    }

    open spec fn value_spec(&self) -> Seq<char> {
        match self {
            Name::Keywords => "keywords"@,
            Name::Description => "description"@,
            Name::Author => "author"@,
            Name::Viewport => "viewport"@,
            Name::Custom(custom) => custom@,
        }
    }

    fn name(&self) -> &'static str {
        "name"
    }

    fn value(&self) -> String {
        match self {
            Name::Keywords => "keywords".to_owned(),
            Name::Description => "description".to_owned(),
            Name::Author => "author".to_owned(),
            Name::Viewport => "viewport".to_owned(),
            Name::Custom(custom) => custom.clone(),
        }
    }
}

/// The `http-equiv` attribute of a metadata entry.
#[derive(Debug, Clone)]
pub enum HttpEquiv {
    Refresh,
}

impl Attribute for HttpEquiv {
    open spec fn name_spec(&self) -> Seq<char> {
        "http-equiv"@
    }

    open spec fn value_spec(&self) -> Seq<char> {
        "refresh"@
    }

    fn name(&self) -> &'static str {
        "http-equiv"
    }

    fn value(&self) -> String {
        "refresh".to_owned()
    }
}

/// The `content` attribute of a metadata entry.
#[derive(Debug, Clone)]
pub struct Content {
    value: String,
}

impl Content {
    /// Make a `content` attribute carrying the given text.
    pub fn new(content: &str) -> (r: Self)
        ensures
            r.value_spec() == content@,
    {
        Content { value: content.to_owned() }
    }
}

impl Attribute for Content {
    open spec fn name_spec(&self) -> Seq<char> {
        "content"@
    }

    closed spec fn value_spec(&self) -> Seq<char> {
        self.value@
    }

    fn name(&self) -> &'static str {
        "content"
    }

    fn value(&self) -> String {
        self.value.clone()
    }
}

/// A metadata entry: a character set, a named value, or an HTTP
/// directive.
#[derive(Debug)]
pub enum Meta {
    Charset(Charset),
    Name((Name, Content)),
    HttpEquiv((HttpEquiv, Content)),
}

impl Meta {
    /// A named metadata entry with arbitrary name and content.
    pub fn name_content(name: &str, content: &str) -> (r: Self)
        ensures
            r.attrs_spec() == Some(
                seq![
                    AttrView { name: "name"@, value: name@ },
                    AttrView { name: "content"@, value: content@ },
                ],
            ),
    {
        Meta::Name((Name::Custom(name.to_owned()), Content::new(content)))
    }

    /// The UTF-8 character set declaration.
    pub fn charset_utf8() -> (r: Self)
        ensures
            r.attrs_spec() == Some(seq![AttrView { name: "charset"@, value: "UTF-8"@ }]),
    {
        Meta::Charset(Charset::Utf8)
    }

    /// An author entry.
    pub fn author(author: &str) -> (r: Self)
        ensures
            r.attrs_spec() == Some(
                seq![
                    AttrView { name: "name"@, value: "author"@ },
                    AttrView { name: "content"@, value: author@ },
                ],
            ),
    {
        Meta::Name((Name::Author, Content::new(author)))
    }

    /// A description entry.
    pub fn description(description: &str) -> (r: Self)
        ensures
            r.attrs_spec() == Some(
                seq![
                    AttrView { name: "name"@, value: "description"@ },
                    AttrView { name: "content"@, value: description@ },
                ],
            ),
    {
        Meta::Name((Name::Description, Content::new(description)))
    }

    /// A refresh directive with the given period in seconds.
    pub fn refresh(how_often: usize) -> (r: Self)
        ensures
            r.attrs_spec() == Some(
                seq![
                    AttrView { name: "http-equiv"@, value: "refresh"@ },
                    AttrView { name: "content"@, value: decimal_text(how_often as nat) },
                ],
            ),
    {
        Meta::HttpEquiv((HttpEquiv::Refresh, Content::new(decimal_string(how_often).as_str())))
    }

    /// A viewport entry with the given content.
    pub fn viewport(content: &str) -> (r: Self)
        ensures
            r.attrs_spec() == Some(
                seq![
                    AttrView { name: "name"@, value: "viewport"@ },
                    AttrView { name: "content"@, value: content@ },
                ],
            ),
    {
        Meta::Name((Name::Viewport, Content::new(content)))
    }

    /// A sane default for the viewport: device width at initial scale one.
    pub fn viewport_sane() -> (r: Self)
        ensures
            r.attrs_spec() == Some(
                seq![
                    AttrView { name: "name"@, value: "viewport"@ },
                    AttrView {
                        name: "content"@,
                        value: "width=device-width, initial-scale=1.0"@,
                    },
                ],
            ),
    {
        Self::viewport("width=device-width, initial-scale=1.0")
    }
}

impl Tag for Meta {
    open spec fn name_spec(&self) -> Seq<char> {
        "meta"@
    }

    open spec fn open_spec(&self) -> bool {
        true
    }

    open spec fn close_spec(&self) -> bool {
        false
    }

    open spec fn attrs_spec(&self) -> Option<Seq<AttrView>> {
        match self {
            Meta::Charset(val) => Some(seq![attr_view_of(*val)]),
            Meta::Name((name, content)) => Some(
                seq![attr_view_of(*name), attr_view_of(*content)],
            ),
            Meta::HttpEquiv((http_equiv, content)) => Some(
                seq![attr_view_of(*http_equiv), attr_view_of(*content)],
            ),
        }
    }

    fn name(&self) -> &'static str {
        "meta"
    }

    fn open_tag(&self) -> bool {
        true
    }

    fn close_tag(&self) -> bool {
        false
    }

    fn attributes(&self) -> Option<Vec<AttrPair>> {
        let v: Vec<AttrPair> = match self {
            Meta::Charset(val) => vec![pair_of(val)],
            Meta::Name((name, content)) => vec![pair_of(name), pair_of(content)],
            Meta::HttpEquiv((http_equiv, content)) => vec![pair_of(http_equiv), pair_of(content)],
        };
        proof {
            assert(crate::global_attributes::pairs_view(v@) =~= self.attrs_spec()->Some_0);
        }
        Some(v)
    }
}

} // verus!
