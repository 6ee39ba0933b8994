use html_tags::document_tree::Node;
use html_tags::tags::Meta;

#[test]
fn render_meta() {
    let result = Node::root()
        .kid(Meta::charset_utf8())
        .kid(Meta::author("John"))
        .kid(Meta::refresh(10))
        .render_string();

    let expected = r#"<meta charset="UTF-8"><meta name="author" content="John"><meta http-equiv="refresh" content="10">"#;

    assert_eq!(expected, result);
}

#[test]
fn render_meta_description_and_custom() {
    let result = Node::root()
        .kid(Meta::description("d"))
        .kid(Meta::name_content("robots", "none"))
        .render_string();

    assert_eq!(
        result,
        r#"<meta name="description" content="d"><meta name="robots" content="none">"#
    );
}

#[test]
fn render_meta_refresh_zero_and_large() {
    let result = Node::root()
        .kid(Meta::refresh(0))
        .kid(Meta::refresh(12345))
        .render_string();

    assert_eq!(
        result,
        r#"<meta http-equiv="refresh" content="0"><meta http-equiv="refresh" content="12345">"#
    );
}

#[test]
fn render_meta_refresh_largest() {
    let result = Node::root().kid(Meta::refresh(usize::MAX)).render_string();

    let expected = format!(r#"<meta http-equiv="refresh" content="{}">"#, usize::MAX);
    assert_eq!(result, expected);
}

#[test]
fn render_meta_viewport() {
    let result = Node::root().kid(Meta::viewport("width=720")).render_string();

    assert_eq!(result, r#"<meta name="viewport" content="width=720">"#);
}
