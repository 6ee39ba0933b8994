//! Per-element rendering tests for tags with their own attributes.

use html_tags::document_tree::o;
use html_tags::tags::form::Method;
use html_tags::tags::td::td;
use html_tags::tags::th::th;
use html_tags::tags::{
    Blockquote, Button, Form, Iframe, Img, Input, Label, Script, Source, Td, Textarea, Th, Video,
};

#[test]
fn render_img() {
    assert_eq!(o(Img::new("i.png")).render_string(), r#"<img src="i.png"></img>"#);
}

#[test]
fn render_img_sized_height_before_width() {
    let result = o(Img::new_sized("u", 2, 3)).render_string();
    assert_eq!(result, r#"<img src="u" height="3" width="2"></img>"#);
}

#[test]
fn render_iframe() {
    assert_eq!(
        o(Iframe::new("page.html")).render_string(),
        r#"<iframe src="page.html"></iframe>"#
    );
    assert_eq!(
        o(Iframe::new_sized("p", 640, 480)).render_string(),
        r#"<iframe src="p" height="480" width="640"></iframe>"#
    );
}

#[test]
fn render_inputs() {
    assert_eq!(
        o(Input::text("n", "v")).render_string(),
        r#"<input type="text" name="n" value="v">"#
    );
    assert_eq!(
        o(Input::hidden("h", "s")).render_string(),
        r#"<input type="hidden" name="h" value="s">"#
    );
    assert_eq!(
        o(Input::submit("go")).render_string(),
        r#"<input type="submit" value="go">"#
    );
    assert_eq!(
        o(Input::radio("v", "g")).render_string(),
        r#"<input type="radio" name="g" value="v">"#
    );
}

#[test]
fn render_checked_radio() {
    let mut input = Input::radio("v", "g");
    input.set_checked();
    assert_eq!(
        o(input).render_string(),
        r#"<input type="radio" name="g" checked="" value="v">"#
    );
}

#[test]
fn render_form_and_button() {
    assert_eq!(
        o(Form::new(Method::Post, "/submit")).render_string(),
        r#"<form method="post" action="/submit"></form>"#
    );
    assert_eq!(
        o(Form::new(Method::Get, "q")).render_string(),
        r#"<form method="get" action="q"></form>"#
    );
    assert_eq!(o(Button::new()).render_string(), r#"<button type="submit"></button>"#);
}

#[test]
fn render_label_and_textarea() {
    assert_eq!(o(Label::new("x")).render_string(), r#"<label for="x"></label>"#);
    assert_eq!(
        o(Textarea::new("t", 2, 30)).render_string(),
        r#"<textarea name="t" rows="2" cols="30"></textarea>"#
    );
}

#[test]
fn render_table_cells_with_colspan() {
    assert_eq!(o(td()).render_string(), "<td></td>");
    assert_eq!(o(th()).render_string(), "<th></th>");
    assert_eq!(o(Td::colspan(2)).render_string(), r#"<td colspan="2"></td>"#);
    assert_eq!(o(Th::colspan(10)).render_string(), r#"<th colspan="10"></th>"#);
}

#[test]
fn render_blockquote() {
    assert_eq!(o(Blockquote::new()).render_string(), "<blockquote></blockquote>");
    assert_eq!(
        o(Blockquote::cite("src")).render_string(),
        r#"<blockquote cite="src"></blockquote>"#
    );
}

#[test]
fn render_script() {
    assert_eq!(o(Script::new()).render_string(), "<script></script>");
    assert_eq!(o(Script::src("a.js")).render_string(), r#"<script src="a.js"></script>"#);
}

#[test]
fn render_video_and_source() {
    assert_eq!(o(Video::new()).render_string(), "<video></video>");
    assert_eq!(
        o(Video::new().loop_().controls()).render_string(),
        r#"<video loop="" controls=""></video>"#
    );
    assert_eq!(
        o(Video::default().controls()).render_string(),
        r#"<video controls=""></video>"#
    );
    assert_eq!(
        o(Source::new_webm("v.webm")).render_string(),
        r#"<source src="v.webm" type="video/webm"></source>"#
    );
    assert_eq!(
        o(Source::new_mp4("v.mp4")).render_string(),
        r#"<source src="v.mp4" type="video/mp4"></source>"#
    );
}
