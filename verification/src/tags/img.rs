//! The image element and its attribute values.

use vstd::prelude::*;

use crate::global_attributes::{pair_of, AttrPair, AttrView, Attribute};
use crate::strutil::{decimal_string, decimal_text};
use crate::tags::Tag;

verus! {

/// The `src` attribute: the address of an embedded resource.
#[derive(Debug, Clone)]
pub struct Src(pub String);

impl Attribute for Src {
    open spec fn name_spec(&self) -> Seq<char> {
        "src"@
    }

    open spec fn value_spec(&self) -> Seq<char> {
        self.0@
    }

    fn name(&self) -> &'static str {
        "src"
    }

    fn value(&self) -> String {
        self.0.clone()
    }
}

/// The `width` attribute, in pixels.
#[derive(Debug, Clone)]
pub struct Width(pub usize);

impl Attribute for Width {
    open spec fn name_spec(&self) -> Seq<char> {
        "width"@
    }

    open spec fn value_spec(&self) -> Seq<char> {
        decimal_text(self.0 as nat)
    }

    fn name(&self) -> &'static str {
        "width"
    }

    fn value(&self) -> String {
        decimal_string(self.0)
    }
}

/// The `height` attribute, in pixels.
#[derive(Debug, Clone)]
pub struct Height(pub usize);

impl Attribute for Height {
    open spec fn name_spec(&self) -> Seq<char> {
        "height"@
    }

    open spec fn value_spec(&self) -> Seq<char> {
        decimal_text(self.0 as nat)
    }

    fn name(&self) -> &'static str {
        "height"
    }

    fn value(&self) -> String {
        decimal_string(self.0)
    }
}

/// An image, with a required source and optional dimensions.
#[derive(Debug, Clone)]
pub struct Img {
    src: Src,
    width: Option<Width>,
    height: Option<Height>,
}

impl Img {
    /// An image with the given source and no stated dimensions.
    pub fn new(url: &str) -> (r: Self)
        ensures
            r.attrs_spec() == Some(seq![AttrView { name: "src"@, value: url@ }]),
    {
        Img { src: Src(url.to_owned()), width: None, height: None }
    }

    /// An image with the given source and dimensions.  The height renders
    /// before the width.
    pub fn new_sized(url: &str, width: usize, height: usize) -> (r: Self)
        ensures
            r.attrs_spec() == Some(
                seq![
                    AttrView { name: "src"@, value: url@ },
                    AttrView { name: "height"@, value: decimal_text(height as nat) },
                    AttrView { name: "width"@, value: decimal_text(width as nat) },
                ],
            ),
    {
        let r = Img {
            src: Src(url.to_owned()),
            width: Some(Width(width)),
            height: Some(Height(height)),
        };
        proof {
            assert(r.attrs_spec()->Some_0 =~= seq![
                AttrView { name: "src"@, value: url@ },
                AttrView { name: "height"@, value: decimal_text(height as nat) },
                AttrView { name: "width"@, value: decimal_text(width as nat) },
            ]);
        }
        r
    }
}

impl Tag for Img {
    open spec fn name_spec(&self) -> Seq<char> {
        "img"@
    }

    open spec fn open_spec(&self) -> bool {
        true
    }

    open spec fn close_spec(&self) -> bool {
        true
    }

    closed spec fn attrs_spec(&self) -> Option<Seq<AttrView>> {
        let src = seq![AttrView { name: "src"@, value: self.src.0@ }];
        let with_height = match self.height {
            Option::Some(h) => src.push(AttrView { name: "height"@, value: h.value_spec() }),
            Option::None => src,
        };
        let with_width = match self.width {
            Option::Some(w) => with_height.push(AttrView { name: "width"@, value: w.value_spec() }),
            Option::None => with_height,
        };
        Some(with_width)
    }

    fn name(&self) -> &'static str {
        "img"
    }

    fn open_tag(&self) -> bool {
        true
    }

    fn close_tag(&self) -> bool {
        true
    }

    fn attributes(&self) -> Option<Vec<AttrPair>> {
        let mut v: Vec<AttrPair> = vec![pair_of(&self.src)];
        if let Some(height) = &self.height {
            v.push(pair_of(height));
        }
        if let Some(width) = &self.width {
            v.push(pair_of(width));
        }
        proof {
            assert(crate::global_attributes::pairs_view(v@) =~= self.attrs_spec()->Some_0);
        }
        Some(v)
    }
}

} // verus!
