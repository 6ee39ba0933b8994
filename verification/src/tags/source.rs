//! The media source element, e.g. for use inside a video element.

use vstd::prelude::*;

use crate::global_attributes::{pair_of, AttrPair, AttrView, Attribute};
use crate::tags::img::Src;
use crate::tags::Tag;

verus! {

/// The `type` attribute of a media source.
#[derive(Debug, Clone)]
enum MediaType {
    Webm,
    Mp4,
}

impl Attribute for MediaType {
    closed spec fn name_spec(&self) -> Seq<char> {
        "type"@
    }

    closed spec fn value_spec(&self) -> Seq<char> {
        match self {
            MediaType::Webm => "video/webm"@,
            MediaType::Mp4 => "video/mp4"@,
        }
    }

    fn name(&self) -> &'static str {
        "type"
    }

    fn value(&self) -> String {
        match self {
            MediaType::Webm => "video/webm".to_owned(),
            MediaType::Mp4 => "video/mp4".to_owned(),
        }
    }
}

/// A media source, with an address and a media type.
#[derive(Debug, Clone)]
pub struct Source {
    type_: MediaType,
    src: Src,
}

impl Source {
    /// A WebM source at the given address.
    pub fn new_webm(source: &str) -> (r: Self)
        ensures
            r.attrs_spec() == Some(
                seq![
                    AttrView { name: "src"@, value: source@ },
                    AttrView { name: "type"@, value: "video/webm"@ },
                ],
            ),
    {
        Source { type_: MediaType::Webm, src: Src(source.to_owned()) }
    }

    /// An MP4 source at the given address.
    pub fn new_mp4(source: &str) -> (r: Self)
        ensures
            r.attrs_spec() == Some(
                seq![
                    AttrView { name: "src"@, value: source@ },
                    AttrView { name: "type"@, value: "video/mp4"@ },
                ],
            ),
    {
        Source { type_: MediaType::Mp4, src: Src(source.to_owned()) }
    }
}

impl Tag for Source {
    open spec fn name_spec(&self) -> Seq<char> {
        "source"@
    }

    open spec fn open_spec(&self) -> bool {
        true
    }

    open spec fn close_spec(&self) -> bool {
        true
    }

    closed spec fn attrs_spec(&self) -> Option<Seq<AttrView>> {
        Some(
            seq![
                AttrView { name: "src"@, value: self.src.0@ },
                AttrView { name: "type"@, value: self.type_.value_spec() },
            ],
        )
    }

    fn name(&self) -> &'static str {
        "source"
    }

    fn open_tag(&self) -> bool {
        true
    }

    fn close_tag(&self) -> bool {
        true
    }

    fn attributes(&self) -> Option<Vec<AttrPair>> {
        let v = vec![pair_of(&self.src), pair_of(&self.type_)];
        proof {
            assert(crate::global_attributes::pairs_view(v@) =~= self.attrs_spec()->Some_0);
        }
        Some(v)
    }
}

} // verus!
