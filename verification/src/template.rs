//! HTML document templates: a canonical doctype + html + head + body
//! page with caller-settable head and body.

use vstd::prelude::*;

use crate::document_tree::{child_spec, o, root_view, tag_view, Node, NodeView};
use crate::global_attributes::AttrView;
use crate::science_lab::NodeExt;
use crate::tags::{Body, Doctype, Head, Html, Meta};

verus! {

/// The view of a metadata element carrying the given attributes.
pub open spec fn meta_view(attrs: Seq<AttrView>) -> NodeView {
    NodeView {
        tag_name: "meta"@,
        emits_open: true,
        emits_close: false,
        tag_attrs: Some(attrs),
        global_attrs: Seq::empty(),
        classes: Seq::empty(),
        text: None,
        children: Seq::empty(),
    }
}

/// The view of the default head: charset, viewport, and refresh
/// metadata entries, in that order.
pub open spec fn head_default_view() -> NodeView {
    NodeView {
        tag_name: "head"@,
        emits_open: true,
        emits_close: true,
        tag_attrs: None,
        global_attrs: Seq::empty(),
        classes: Seq::empty(),
        text: None,
        children: seq![
            meta_view(seq![AttrView { name: "charset"@, value: "UTF-8"@ }]),
            meta_view(
                seq![
                    AttrView { name: "name"@, value: "viewport"@ },
                    AttrView {
                        name: "content"@,
                        value: "width=device-width, initial-scale=1.0"@,
                    },
                ],
            ),
            meta_view(
                seq![
                    AttrView { name: "http-equiv"@, value: "refresh"@ },
                    AttrView { name: "content"@, value: "5"@ },
                ],
            ),
        ],
    }
}

/// The view of the whole document produced by the builder: a structural
/// root holding the doctype, then an html element holding the head and
/// the body.
pub open spec fn document_view(head: Option<NodeView>, body: Option<NodeView>) -> NodeView {
    let head_v = match head {
        Option::Some(h) => h,
        Option::None => head_default_view(),
    };
    let body_v = match body {
        Option::Some(b) => b,
        Option::None => tag_view(Body),
    };
    child_spec(
        child_spec(root_view(), tag_view(Doctype)),
        child_spec(child_spec(tag_view(Html), head_v), body_v),
    )
}

/// The default head node: charset, viewport, and a five-second refresh.
pub fn head() -> (r: Node)
    ensures
        r@ == head_default_view(),
{
    let r = o(Head).kid(Meta::charset_utf8()).kid(Meta::viewport_sane()).kid(Meta::refresh(5));
    proof {
        assert(r@.children =~= head_default_view().children);
        assert(r@ =~= head_default_view());
    }
    r
}

/// Sets up a default HTML document, with user-settable head and body.
///
/// If the head is not set, [`build`](HtmlDocumentBuilder::build) uses
/// the default head; if the body is not set, it uses an empty body.
pub struct HtmlDocumentBuilder {
    head: Option<Node>,
    body: Option<Node>,
}

impl HtmlDocumentBuilder {
    /// The head this builder was given, when one was.
    pub closed spec fn head_spec(&self) -> Option<NodeView> {
        match self.head {
            Option::Some(h) => Some(h@),
            Option::None => None,
        }
    }

    /// The body this builder was given, when one was.
    pub closed spec fn body_spec(&self) -> Option<NodeView> {
        match self.body {
            Option::Some(b) => Some(b@),
            Option::None => None,
        }
    }

    /// A builder with neither head nor body set.
    pub fn new() -> (r: Self)
        ensures
            r.head_spec() is None,
            r.body_spec() is None,
    {
        HtmlDocumentBuilder { head: None, body: None }
    }

    /// Supply the document's head.
    pub fn with_head(self, head: Node) -> (r: Self)
        ensures
            r.head_spec() == Some(head@),
            r.body_spec() == self.body_spec(),
    {
        HtmlDocumentBuilder { head: Some(head), body: self.body }
    }

    /// Supply the document's body.
    pub fn with_body(self, body: Node) -> (r: Self)
        ensures
            r.body_spec() == Some(body@),
            r.head_spec() == self.head_spec(),
    {
        HtmlDocumentBuilder { head: self.head, body: Some(body) }
    }

    /// Build the document: doctype, then html wrapping the head and the
    /// body, grouped under a structural root.
    pub fn build(self) -> (r: Node)
        ensures
            r@ == document_view(self.head_spec(), self.body_spec()),
    {
        let ghost head_given = self.head_spec();
        let ghost body_given = self.body_spec();
        let head_node = match self.head {
            Some(h) => h,
            None => head(),
        };
        let body_node = match self.body {
            Some(b) => b,
            None => o(Body),
        };
        let r = Node::root().kid(o(Doctype)).kid(o(Html).kid(head_node).kid(body_node));
        proof {
            assert(r@ =~= document_view(head_given, body_given));
        }
        r
    }
}

impl Default for HtmlDocumentBuilder {
    fn default() -> (r: Self)
        ensures
            r.head_spec() is None,
            r.body_spec() is None,
    {
        HtmlDocumentBuilder::new()
    }
}

} // verus!
