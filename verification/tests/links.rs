use html_tags::document_tree::o;
use html_tags::tags::link::{Href, Mime};
use html_tags::tags::{Html, Link};

#[test]
fn render_stylesheet() {
    let result = o(Link::stylesheet(
        Mime::new(mime::TEXT_CSS.as_ref()),
        "news.css?QZejSKY7mNWXnObVdaSN",
    ))
    .render_string();

    let expected =
        r#"<link rel="stylesheet" type="text/css" href="news.css?QZejSKY7mNWXnObVdaSN">"#;
    assert_eq!(expected, result);
}

#[test]
fn render_icon() {
    let result = o(Link::icon("favicon.ico")).render_string();

    let expected = r#"<link rel="icon" href="favicon.ico">"#;
    assert_eq!(expected, result);
}

#[test]
fn render_alternate() {
    let result = o(Link::alternate(
        Mime::new("application/rss+xml"),
        "RSS",
        "rss",
    ))
    .render_string();

    let expected = r#"<link rel="alternate" type="application/rss+xml" title="RSS" href="rss">"#;
    assert_eq!(expected, result);
}

#[test]
fn href_from_parsed_url() {
    let parsed = url::Url::parse("https://x.com").unwrap();
    let result = o(Html).add_attr(Href::from_url(&parsed)).render_string();

    assert_eq!(result, r#"<html href="https://x.com/"></html>"#);
}
