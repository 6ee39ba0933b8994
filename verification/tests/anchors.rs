use html_tags::document_tree::o;
use html_tags::tags::a::Target;
use html_tags::tags::td::td;
use html_tags::tags::{Span, A, B};

#[test]
fn render_visit_w3schools() {
    let link = o(A::href("https://www.w3schools.com")).add_text("Visit W3Schools.com!");

    let expected = r#"<a href="https://www.w3schools.com">Visit W3Schools.com!</a>"#;
    let result = link.render_string();

    assert_eq!(expected, result);
}

#[test]
fn render_a_hackernews_header() {
    let a = |href, text| o(A::href(href)).add_text(text);
    let a2 = |href| o(A::href(href)).add_text(href);
    let spacer = " | ";

    let td_links = o(td()).add_style("line-height:12pt; height:10px;").kid(
        o(Span)
            .add_class("pagetop")
            .kid(o(B).add_class("hnname").kid(a("news", "Hacker News")))
            .kid(a("newest", "new"))
            .add_text(spacer)
            .kid(a("newcomments", "comments"))
            .add_text(spacer)
            .kid(a2("ask"))
            .add_text(spacer)
            .kid(a2("show"))
            .add_text(spacer)
            .kid(a2("jobs"))
            .add_text(spacer)
            .kid(a2("submit")),
    );
    let expected = "<td style=\"line-height:12pt; height:10px;\">\
<span class=\"pagetop\">\
<b class=\"hnname\"><a href=\"news\">Hacker News</a></b>\
<a href=\"newest\">new</a> | \
<a href=\"newcomments\">comments</a> | \
<a href=\"ask\">ask</a> | \
<a href=\"show\">show</a> | \
<a href=\"jobs\">jobs</a> | \
<a href=\"submit\">submit</a>\
</span></td>";
    let result = td_links.render_string();

    assert_eq!(expected, result);
}

#[test]
fn render_bare_anchor() {
    assert_eq!(o(A::new()).render_string(), "<a></a>");
}

#[test]
fn render_anchor_with_target() {
    let result = o(A::href("h").with_target(Target::Blank)).render_string();
    assert_eq!(result, r#"<a href="h" target="blank"></a>"#);
}

#[test]
fn render_anchor_target_only() {
    let result = o(A::new().with_target(Target::Top)).render_string();
    assert_eq!(result, r#"<a target="top"></a>"#);
}
