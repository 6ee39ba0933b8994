//! The inline frame element.

use vstd::prelude::*;

use crate::global_attributes::{pair_of, AttrPair, AttrView, Attribute};
use crate::strutil::decimal_text;
use crate::tags::img;
use crate::tags::Tag;

verus! {

/// An inline frame, with a required source and optional dimensions.
#[derive(Debug, Clone)]
pub struct Iframe {
    src: img::Src,
    width: Option<img::Width>,
    height: Option<img::Height>,
}

impl Iframe {
    /// An inline frame with the given source and no stated dimensions.
    pub fn new(url: &str) -> (r: Self)
        ensures
            r.attrs_spec() == Some(seq![AttrView { name: "src"@, value: url@ }]),
    {
        Iframe { src: img::Src(url.to_owned()), width: None, height: None }
    }

    /// An inline frame with the given source and dimensions.  The height
    /// renders before the width.
    pub fn new_sized(url: &str, width: usize, height: usize) -> (r: Self)
        ensures
            r.attrs_spec() == Some(
                seq![
                    AttrView { name: "src"@, value: url@ },
                    AttrView { name: "height"@, value: decimal_text(height as nat) },
                    AttrView { name: "width"@, value: decimal_text(width as nat) },
                ],
            ),
    {
        let r = Iframe {
            src: img::Src(url.to_owned()),
            width: Some(img::Width(width)),
            height: Some(img::Height(height)),
        };
        proof {
            assert(r.attrs_spec()->Some_0 =~= seq![
                AttrView { name: "src"@, value: url@ },
                AttrView { name: "height"@, value: decimal_text(height as nat) },
                AttrView { name: "width"@, value: decimal_text(width as nat) },
            ]);
        }
        r
    }
}

impl Tag for Iframe {
    open spec fn name_spec(&self) -> Seq<char> {
        "iframe"@
    }

    open spec fn open_spec(&self) -> bool {
        true
    }

    open spec fn close_spec(&self) -> bool {
        true
    }

    closed spec fn attrs_spec(&self) -> Option<Seq<AttrView>> {
        let src = seq![AttrView { name: "src"@, value: self.src.0@ }];
        let with_height = match self.height {
            Option::Some(h) => src.push(AttrView { name: "height"@, value: h.value_spec() }),
            Option::None => src,
        };
        let with_width = match self.width {
            Option::Some(w) => with_height.push(AttrView { name: "width"@, value: w.value_spec() }),
            Option::None => with_height,
        };
        Some(with_width)
    }

    fn name(&self) -> &'static str {
        "iframe"
    }

    fn open_tag(&self) -> bool {
        true
    }

    fn close_tag(&self) -> bool {
        true
    }

    fn attributes(&self) -> Option<Vec<AttrPair>> {
        let mut v: Vec<AttrPair> = vec![pair_of(&self.src)];
        if let Some(height) = &self.height {
            v.push(pair_of(height));
        }
        if let Some(width) = &self.width {
            v.push(pair_of(width));
        }
        proof {
            assert(crate::global_attributes::pairs_view(v@) =~= self.attrs_spec()->Some_0);
        }
        Some(v)
    }
}

} // verus!
