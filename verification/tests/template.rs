use html_tags::document_tree::o;
use html_tags::template::{head, HtmlDocumentBuilder};
use html_tags::tags::{Body, Head, Title};

const DEFAULT_HEAD: &str = "<head>\
<meta charset=\"UTF-8\">\
<meta name=\"viewport\" content=\"width=device-width, initial-scale=1.0\">\
<meta http-equiv=\"refresh\" content=\"5\">\
</head>";

#[test]
fn default_head_renders_meta_entries() {
    assert_eq!(head().render_string(), DEFAULT_HEAD);
}

#[test]
fn default_document_round_trip() {
    let rendered = HtmlDocumentBuilder::new().build().render_string();

    let expected = format!("<!DOCTYPE html><html>{DEFAULT_HEAD}<body></body></html>");
    assert_eq!(rendered, expected);
}

#[test]
fn document_with_custom_head() {
    let rendered = HtmlDocumentBuilder::new()
        .with_head(o(Head).kid(o(Title).add_text("T")))
        .build()
        .render_string();

    assert_eq!(
        rendered,
        "<!DOCTYPE html><html><head><title>T</title></head><body></body></html>"
    );
}

#[test]
fn document_with_custom_body() {
    let rendered = HtmlDocumentBuilder::default()
        .with_body(o(Body).add_text("B"))
        .build()
        .render_string();

    let expected = format!("<!DOCTYPE html><html>{DEFAULT_HEAD}<body>B</body></html>");
    assert_eq!(rendered, expected);
}
