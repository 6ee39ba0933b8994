//! The conversion capability: anything tag-like, or an existing node,
//! can become a node, so heterogeneous children attach uniformly.

use vstd::prelude::*;

use crate::document_tree::{
    add_attr_spec, add_class_spec, add_text_spec, child_spec, tag_view, Node, NodeView,
};
use crate::global_attributes::AttrView;
use crate::tags::Tag;

verus! {

/// The conversion capability: a uniform way to turn any tag value, or an
/// existing node, into a node, with convenience builders derived from
/// the conversion.
pub trait NodeExt: Sized {
    /// The view of the node this value converts to.
    spec fn as_node_view(self) -> NodeView;

    /// Turn this value into a node.
    fn into_node(self) -> (r: Node)
        ensures
            r@ == self.as_node_view(),
    ;

    /// Convert, then append an `id` attribute.
    fn id(self, id: &str) -> (r: Node)
        ensures
            r@ == add_attr_spec(self.as_node_view(), AttrView { name: "id"@, value: id@ }),
    ;

    /// Convert, then add the given class string.
    fn class(self, class: &str) -> (r: Node)
        ensures
            r@ == add_class_spec(self.as_node_view(), class@),
    ;

    /// Convert, then append a child node.
    fn kid(self, kid: Node) -> (r: Node)
        ensures
            r@ == child_spec(self.as_node_view(), kid@),
    ;

    /// Convert, then append free text.
    fn text(self, text: &str) -> (r: Node)
        ensures
            r@ == add_text_spec(self.as_node_view(), text@),
    ;

    /// Convert, then append a `style` attribute.
    fn style(self, style: &str) -> (r: Node)
        ensures
            r@ == add_attr_spec(self.as_node_view(), AttrView { name: "style"@, value: style@ }),
    ;
}

impl<T: Tag> NodeExt for T {
    open spec fn as_node_view(self) -> NodeView {
        tag_view(self)
    }

    fn into_node(self) -> Node {
        Node::new2(self)
    }

    fn id(self, id: &str) -> Node {
        self.into_node().set_id(id)
    }

    fn class(self, class: &str) -> Node {
        self.into_node().add_class(class)
    }

    fn kid(self, kid: Node) -> Node {
        self.into_node().kid(kid)
    }

    fn text(self, text: &str) -> Node {
        self.into_node().add_text(text)
    }

    fn style(self, style: &str) -> Node {
        self.into_node().add_style(style)
    }
}

impl NodeExt for Node {
    open spec fn as_node_view(self) -> NodeView {
        self@
    }

    fn into_node(self) -> Node {
        self
    }

    fn id(self, id: &str) -> Node {
        self.set_id(id)
    }

    fn class(self, class: &str) -> Node {
        self.add_class(class)
    }

    fn kid(self, kid: Node) -> Node {
        self.child(kid)
    }

    fn text(self, text: &str) -> Node {
        self.add_text(text)
    }

    fn style(self, style: &str) -> Node {
        self.add_style(style)
    }
}

} // verus!
