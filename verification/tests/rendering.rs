//! Scenario tests for the rendering rules: structural and void nodes,
//! attribute ordering, class deduplication, and text interleaving.

use html_tags::document_tree::{o, Node};
use html_tags::science_lab::NodeExt;
use html_tags::tags::{Br, Div, Doctype, Meta, Span, A};

#[test]
fn empty_root_renders_nothing() {
    assert_eq!(Node::root().render_string(), "");
}

#[test]
fn structural_node_renders_only_children() {
    let result = Node::root().kid(o(Div)).kid(o(Span)).render_string();
    assert_eq!(result, "<div></div><span></span>");
}

#[test]
fn doctype_renders_unclosed() {
    assert_eq!(o(Doctype).render_string(), "<!DOCTYPE html>");
}

#[test]
fn void_leaf_renders_single_marker() {
    assert_eq!(o(Br).render_string(), "<br>");
}

#[test]
fn void_node_children_follow_unmatched_marker() {
    let result = o(Br).kid(o(Span).add_text("x")).render_string();
    assert_eq!(result, "<br><span>x</span>");

    let with_meta = o(Meta::charset_utf8()).add_text("t").render_string();
    assert_eq!(with_meta, "<meta charset=\"UTF-8\">t");
}

#[test]
fn class_precedes_globals_precede_tag_attributes() {
    let result = o(A::href("x")).add_class("c").set_id("i").render_string();
    assert_eq!(result, r#"<a class="c" id="i" href="x"></a>"#);
}

#[test]
fn global_attributes_keep_insertion_order() {
    let result = o(Div)
        .set_id("i")
        .set_title("t")
        .add_style("x:y")
        .render_string();
    assert_eq!(result, r#"<div id="i" title="t" style="x:y"></div>"#);
}

#[test]
fn class_added_twice_renders_once() {
    let result = o(Div).add_class("a").add_class("a").render_string();
    assert_eq!(result, r#"<div class="a"></div>"#);
}

#[test]
fn multi_token_class_string_deduplicates() {
    let result = o(Div).add_class("a b a").render_string();
    assert_eq!(result, r#"<div class="a b"></div>"#);

    let merged = o(Div).add_class("b a").add_class("a c").render_string();
    assert_eq!(merged, r#"<div class="b a c"></div>"#);
}

#[test]
fn blank_class_string_adds_nothing() {
    assert_eq!(o(Div).add_class("").render_string(), "<div></div>");
    assert_eq!(o(Div).add_class(" \t ").render_string(), "<div></div>");
}

#[test]
fn text_and_children_interleave_in_call_order() {
    let result = o(Div).add_text("a").kid(o(Span)).add_text("b").render_string();
    assert_eq!(result, "<div>a<span></span>b</div>");
}

#[test]
fn node_ext_text_kid_text_order() {
    let result = Div.text("a").kid(o(Span)).text("b").render_string();
    assert_eq!(result, "<div>a<span></span>b</div>");
}

#[test]
fn rendering_is_deterministic() {
    let tree = o(Div).add_class("c b").kid(o(Span).add_text("t")).set_id("i");
    let first = tree.render_string();
    let second = tree.render_string();
    assert_eq!(first, second);
    assert_eq!(first, r#"<div class="c b" id="i"><span>t</span></div>"#);
}

#[test]
fn node_ext_builders_on_tags() {
    assert_eq!(Div.id("i").render_string(), r#"<div id="i"></div>"#);
    assert_eq!(Div.class("c").render_string(), r#"<div class="c"></div>"#);
    assert_eq!(Div.style("s").render_string(), r#"<div style="s"></div>"#);
    assert_eq!(Div.kid(o(Span)).render_string(), "<div><span></span></div>");
    assert_eq!(Div.text("t").render_string(), "<div>t</div>");
    assert_eq!(Div.into_node().render_string(), "<div></div>");
}

#[test]
fn render_writer_appends_to_sink() {
    let mut sink = String::from("x");
    o(Div).add_text("t").render_writer(&mut sink);
    assert_eq!(sink, "x<div>t</div>");
}

#[test]
fn cloned_tree_renders_identically() {
    let tree = o(Div).add_class("c").kid(o(Span).add_text("t"));
    let copy = tree.clone();
    assert_eq!(tree.render_string(), copy.render_string());
}
