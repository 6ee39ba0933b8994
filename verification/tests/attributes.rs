//! Tests for the global attributes and the attribute capability.

use html_tags::document_tree::{o, Node};
use html_tags::global_attributes::{Attribute, Class, Id, Lang, Style, Title};
use html_tags::tags::{Div, Html};

#[test]
fn lang_values() {
    assert_eq!(
        o(Html).add_attr(Lang::French).render_string(),
        r#"<html lang="fr"></html>"#
    );
    assert_eq!(
        o(Html).add_attr(Lang::Spanish).render_string(),
        r#"<html lang="es"></html>"#
    );
}

#[test]
fn dedicated_attribute_types() {
    let result = o(Div)
        .add_attr(Id::new("i"))
        .add_attr(Class::new("c"))
        .add_attr(Style::new("x:y"))
        .add_attr(Title::new("t"))
        .render_string();
    assert_eq!(
        result,
        r#"<div id="i" class="c" style="x:y" title="t"></div>"#
    );
}

#[test]
fn attribute_names_and_values() {
    assert_eq!(Id::new("a").name(), "id");
    assert_eq!(Id::new("a").value(), "a");
    assert_eq!(Lang::English.name(), "lang");
    assert_eq!(Lang::English.value(), "en");
    assert_eq!(("k", "v").name(), "k");
    assert_eq!(("k", "v").value(), "v");
    assert_eq!(("k", String::from("w")).value(), "w");
}

#[test]
fn tuple_attribute_with_owned_value_renders() {
    let result = Node::root()
        .kid(o(Div).add_attr(("k", String::from("v"))))
        .render_string();
    assert_eq!(result, r#"<div k="v"></div>"#);
}

#[test]
fn set_title_builder() {
    assert_eq!(
        o(Div).set_title("t").render_string(),
        r#"<div title="t"></div>"#
    );
}
