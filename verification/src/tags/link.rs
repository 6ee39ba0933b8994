//! The `link` element and the attribute values it carries.

use vstd::prelude::*;

use crate::global_attributes::{attr_view_of, pair_of, AttrPair, AttrView, Attribute};
use crate::tags::Tag;

verus! {

/// The advisory `title` attribute of a linked resource.
#[derive(Debug, Clone)]
pub struct Title {
    value: String,
}

impl Attribute for Title {
    open spec fn name_spec(&self) -> Seq<char> {
        "title"@
    }

    closed spec fn value_spec(&self) -> Seq<char> {
        self.value@
    }

    fn name(&self) -> &'static str {
        "title"
    }

    fn value(&self) -> String {
        self.value.clone()
    }
}

/// The `rel` attribute: the relationship of the linked resource.
#[derive(Debug, Clone)]
pub enum Rel {
    Stylesheet,
    Icon,
    Alternate,
}

impl Attribute for Rel {
    open spec fn name_spec(&self) -> Seq<char> {
        "rel"@
    }

    open spec fn value_spec(&self) -> Seq<char> {
        match self {
            Rel::Stylesheet => "stylesheet"@,
            Rel::Icon => "icon"@,
            Rel::Alternate => "alternate"@,
        }
    }

    fn name(&self) -> &'static str {
        "rel"
    }

    fn value(&self) -> String {
        match self {
            Rel::Stylesheet => "stylesheet".to_owned(),
            Rel::Icon => "icon".to_owned(),
            Rel::Alternate => "alternate".to_owned(),
        }
    }
}

/// The parsed URL of the `url` crate, carried opaquely.
#[verifier::external_type_specification]
#[verifier::external_body]
pub struct ExUrl(url::Url);

/// The `type` attribute: the media type of the linked resource.
#[derive(Debug, Clone)]
pub struct Mime {
    value: String,
}

impl Mime {
    /// Make a media-type attribute from its textual form.
    pub fn new(type_: &str) -> (r: Self)
        ensures
            r.value_spec() == type_@,
    {
        Mime { value: type_.to_owned() }
    }

}

impl Attribute for Mime {
    open spec fn name_spec(&self) -> Seq<char> {
        "type"@
    }

    closed spec fn value_spec(&self) -> Seq<char> {
        self.value@
    }

    fn name(&self) -> &'static str {
        "type"
    }

    fn value(&self) -> String {
        self.value.clone()
    }
}

/// The `href` attribute: the address of the linked resource.
#[derive(Debug, Clone)]
pub struct Href {
    value: String,
}

impl Href {
    /// Make an `href` attribute from the given address.
    pub fn new(url: &str) -> (r: Self)
        ensures
            r.value_spec() == url@,
    {
        Href { value: url.to_owned() }
    }

    /// Make an `href` attribute from a parsed URL.
    ///
    /// Relies on `url::Url::as_str`, which yields the serialization of
    /// the parsed URL; nothing is assumed about that text.
    #[verifier::external_body]
    pub fn from_url(url: &url::Url) -> Href {
        Href { value: url.as_str().to_owned() }
    }
}

impl Attribute for Href {
    open spec fn name_spec(&self) -> Seq<char> {
        "href"@
    }

    closed spec fn value_spec(&self) -> Seq<char> {
        self.value@
    }

    fn name(&self) -> &'static str {
        "href"
    }

    fn value(&self) -> String {
        self.value.clone()
    }
}

/// A `link` element: a stylesheet, an icon, or an alternate representation.
#[derive(Debug, Clone)]
pub enum Link {
    Stylesheet { rel: Rel, mime: Mime, href: Href },
    Icon { rel: Rel, href: Href },
    Alternate { rel: Rel, mime: Mime, title: Title, href: Href },
}

impl Link {
    /// A stylesheet link with the given media type and address.
    pub fn stylesheet(mime: Mime, url: &str) -> (r: Self)
        ensures
            r.attrs_spec() == Some(
                seq![
                    AttrView { name: "rel"@, value: "stylesheet"@ },
                    AttrView { name: "type"@, value: mime.value_spec() },
                    AttrView { name: "href"@, value: url@ },
                ],
            ),
    {
        Link::Stylesheet { rel: Rel::Stylesheet, mime, href: Href::new(url) }
    }

    /// An icon link with the given address.
    pub fn icon(url: &str) -> (r: Self)
        ensures
            r.attrs_spec() == Some(
                seq![
                    AttrView { name: "rel"@, value: "icon"@ },
                    AttrView { name: "href"@, value: url@ },
                ],
            ),
    {
        Link::Icon { rel: Rel::Icon, href: Href::new(url) }
    }

    /// An alternate-representation link with the given media type, title,
    /// and address.
    pub fn alternate(mime: Mime, title: &str, url: &str) -> (r: Self)
        ensures
            r.attrs_spec() == Some(
                seq![
                    AttrView { name: "rel"@, value: "alternate"@ },
                    AttrView { name: "type"@, value: mime.value_spec() },
                    AttrView { name: "title"@, value: title@ },
                    AttrView { name: "href"@, value: url@ },
                ],
            ),
    {
        Link::Alternate {
            rel: Rel::Alternate,
            mime,
            title: Title { value: title.to_owned() },
            href: Href::new(url),
        }
    }
}

impl Tag for Link {
    open spec fn name_spec(&self) -> Seq<char> {
        "link"@
    }

    open spec fn open_spec(&self) -> bool {
        true
    }

    open spec fn close_spec(&self) -> bool {
        false
    }

    open spec fn attrs_spec(&self) -> Option<Seq<AttrView>> {
        match self {
            Link::Stylesheet { rel, mime, href } => Some(
                seq![attr_view_of(*rel), attr_view_of(*mime), attr_view_of(*href)],
            ),
            Link::Icon { rel, href } => Some(seq![attr_view_of(*rel), attr_view_of(*href)]),
            Link::Alternate { rel, mime, title, href } => Some(
                seq![
                    attr_view_of(*rel),
                    attr_view_of(*mime),
                    attr_view_of(*title),
                    attr_view_of(*href),
                ],
            ),
        }
    }

    fn name(&self) -> &'static str {
        "link"
    }

    fn open_tag(&self) -> bool {
        true
    }

    fn close_tag(&self) -> bool {
        false
    }

    fn attributes(&self) -> Option<Vec<AttrPair>> {
        let v: Vec<AttrPair> = match self {
            Link::Stylesheet { rel, mime, href } => {
                vec![pair_of(rel), pair_of(mime), pair_of(href)]
            },
            Link::Icon { rel, href } => vec![pair_of(rel), pair_of(href)],
            Link::Alternate { rel, mime, title, href } => {
                vec![pair_of(rel), pair_of(mime), pair_of(title), pair_of(href)]
            },
        };
        proof {
            assert(crate::global_attributes::pairs_view(v@) =~= self.attrs_spec()->Some_0);
        }
        Some(v)
    }
}

} // verus!
