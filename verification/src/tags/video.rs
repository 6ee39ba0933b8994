//! The video element.

use vstd::prelude::*;

use crate::global_attributes::{pair_of, AttrPair, AttrView, Attribute};
use crate::tags::Tag;

verus! {

/// The boolean `loop` attribute of a video.
#[derive(Debug, Clone)]
pub struct Loop;

impl Attribute for Loop {
    open spec fn name_spec(&self) -> Seq<char> {
        "loop"@
    }

    open spec fn value_spec(&self) -> Seq<char> {
        ""@
    }

    fn name(&self) -> &'static str {
        "loop"
    }

    fn value(&self) -> String {
        "".to_owned()
    }
}

/// The boolean `controls` attribute of a video.
#[derive(Debug, Clone)]
pub struct Controls;

impl Attribute for Controls {
    open spec fn name_spec(&self) -> Seq<char> {
        "controls"@
    }

    open spec fn value_spec(&self) -> Seq<char> {
        ""@
    }

    fn name(&self) -> &'static str {
        "controls"
    }

    fn value(&self) -> String {
        "".to_owned()
    }
}

/// The tag-specific attributes of a video: `loop`, then `controls`, each
/// only when set; no attributes at all when neither is set.
pub open spec fn video_attrs(has_loop: bool, has_controls: bool) -> Option<Seq<AttrView>> {
    if !has_loop && !has_controls {
        None
    } else {
        let with_loop: Seq<AttrView> = if has_loop {
            seq![AttrView { name: "loop"@, value: ""@ }]
        } else {
            Seq::empty()
        };
        let with_controls: Seq<AttrView> = if has_controls {
            with_loop + seq![AttrView { name: "controls"@, value: ""@ }]
        } else {
            with_loop
        };
        Some(with_controls)
    }
}

/// A video, optionally looping and optionally showing its controls.
#[derive(Debug, Clone)]
pub struct Video {
    loop_: Option<Loop>,
    controls: Option<Controls>,
}

impl Video {
    /// Whether the `loop` attribute is set.
    pub closed spec fn has_loop(&self) -> bool {
        self.loop_ is Some
    }

    /// Whether the `controls` attribute is set.
    pub closed spec fn has_controls(&self) -> bool {
        self.controls is Some
    }

    /// A video with neither attribute set.
    pub fn new() -> (r: Self)
        ensures
            !r.has_loop(),
            !r.has_controls(),
    {
        Video { loop_: None, controls: None }
    }

    /// Set the `loop` attribute.
    pub fn loop_(self) -> (r: Self)
        ensures
            r.has_loop(),
            r.has_controls() == self.has_controls(),
    {
        Video { loop_: Some(Loop), controls: self.controls }
    }

    /// Set the `controls` attribute.
    pub fn controls(self) -> (r: Self)
        ensures
            r.has_controls(),
            r.has_loop() == self.has_loop(),
    {
        Video { loop_: self.loop_, controls: Some(Controls) }
    }
}

impl Default for Video {
    fn default() -> (r: Self)
        ensures
            !r.has_loop(),
            !r.has_controls(),
    {
        Video::new()
    }
}

impl Tag for Video {
    open spec fn name_spec(&self) -> Seq<char> {
        "video"@
    }

    open spec fn open_spec(&self) -> bool {
        true
    }

    open spec fn close_spec(&self) -> bool {
        true
    }

    open spec fn attrs_spec(&self) -> Option<Seq<AttrView>> {
        video_attrs(self.has_loop(), self.has_controls())
    }

    fn name(&self) -> &'static str {
        "video"
    }

    fn open_tag(&self) -> bool {
        true
    }

    fn close_tag(&self) -> bool {
        true
    }

    fn attributes(&self) -> Option<Vec<AttrPair>> {
        let mut v: Vec<AttrPair> = Vec::new();
        if let Some(l) = &self.loop_ {
            v.push(pair_of(l));
        }
        if let Some(c) = &self.controls {
            v.push(pair_of(c));
        }
        if v.len() == 0 {
            None
        } else {
            proof {
                assert(crate::global_attributes::pairs_view(v@) =~= self.attrs_spec()->Some_0);
            }
            Some(v)
        }
    }
}

} // verus!
