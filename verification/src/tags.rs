//! The tag capability, and one module per element kind.

use vstd::prelude::*;

use crate::global_attributes::{AttrPair, AttrView};

pub mod a;
pub mod b;
pub mod blockquote;
pub mod body;
pub mod br;
pub mod button;
pub mod center;
pub mod code;
pub mod div;
pub mod doctype;
pub mod em;
pub mod footer;
pub mod form;
pub mod h1;
pub mod h2;
pub mod h3;
pub mod head;
pub mod hr;
pub mod html;
pub mod i;
pub mod iframe;
pub mod img;
pub mod input;
pub(crate) mod invisible;
pub mod label;
pub mod li;
pub mod link;
pub mod main;
pub mod meta;
pub mod nav;
pub mod p;
pub mod pre;
pub(crate) mod root;
pub mod script;
pub mod source;
pub mod span;
pub mod style;
pub mod table;
pub mod td;
pub mod textarea;
pub mod th;
pub mod title;
pub mod tr;
pub mod u;
pub mod ul;
pub mod video;

pub use a::A;
pub use b::B;
pub use blockquote::Blockquote;
pub use body::Body;
pub use br::Br;
pub use button::Button;
pub use center::Center;
pub use code::Code;
pub use div::Div;
pub use doctype::Doctype;
pub use em::Em;
pub use footer::Footer;
pub use form::Form;
pub use h1::H1;
pub use h2::H2;
pub use h3::H3;
pub use head::Head;
pub use hr::Hr;
pub use html::Html;
pub use i::I;
pub use iframe::Iframe;
pub use img::Img;
pub use input::Input;
pub use label::Label;
pub use li::Li;
pub use link::Link;
pub use main::Main;
pub use meta::Meta;
pub use nav::Nav;
pub use p::P;
pub use pre::Pre;
pub use script::Script;
pub use source::Source;
pub use span::Span;
pub use style::Style;
pub use table::Table;
pub use td::Td;
pub use textarea::Textarea;
pub use th::Th;
pub use title::Title;
pub use tr::Tr;
pub use u::U;
pub use ul::Ul;
pub use video::Video;

verus! {

/// The capability an HTML tag offers.
///
/// The set of element kinds is open: a new kind is added by implementing
/// this trait, without touching the tree or the renderer.  A structural
/// variant that renders no markup reports `false` from both `open_tag` and
/// `close_tag` and names itself with the empty sentinel.
pub trait Tag: Sized {
    /// The tag's name, as a mathematical value.
    spec fn name_spec(&self) -> Seq<char>;

    /// Whether rendering emits an opening `<tag ...>` marker.
    spec fn open_spec(&self) -> bool;

    /// Whether rendering emits a closing `</tag>` marker.
    spec fn close_spec(&self) -> bool;

    /// The tag-specific attributes, in the order they render, if any.
    spec fn attrs_spec(&self) -> Option<Seq<AttrView>>;

    /// The tag's name.
    fn name(&self) -> (r: &'static str)
        ensures
            r@ == self.name_spec(),
    ;

    /// If false, rendering adds no `<tag ...>` marker.
    fn open_tag(&self) -> (r: bool)
        ensures
            r == self.open_spec(),
    ;

    /// If false, rendering adds no `</tag>` marker.
    fn close_tag(&self) -> (r: bool)
        ensures
            r == self.close_spec(),
    ;

    /// If given, these attributes render inside the opening marker, after
    /// the class list and the global attributes, in exactly this order.
    fn attributes(&self) -> (r: Option<Vec<AttrPair>>)
        ensures
            crate::global_attributes::opt_pairs_view(r) == self.attrs_spec(),
    ;
}

} // verus!
