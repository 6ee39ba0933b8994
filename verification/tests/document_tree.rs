use html_tags::document_tree::{o, Node};
use html_tags::global_attributes::Lang;
use html_tags::tags::{Body, Div, Em, Html, H1, Hr, Li, Ul, P};

fn node<T: html_tags::tags::Tag>(tag: T) -> Node {
    Node::new2(tag)
}

const TREE_V1: &str = "<body><div><h1></h1><p></p><p><em></em></p><hr></div>\
<div><ul><li></li><li></li><li></li></ul></div></body>";

#[test]
fn build_tree_v1() {
    let tree = Node::root().child(Node::new(Box::new(Body)).children(vec![
        Node::new(Box::new(Div)).children(vec![
            Node::new(Box::new(H1)),
            Node::new(Box::new(P)),
            Node::new(Box::new(P)).child(Node::new(Box::new(Em))),
            Node::new(Box::new(Hr)),
        ]),
        Node::new(Box::new(Div)).child(Node::new(Box::new(Ul)).children(vec![
            Node::new(Box::new(Li)),
            Node::new(Box::new(Li)),
            Node::new(Box::new(Li)),
        ])),
    ]));

    assert_eq!(tree.render_string(), TREE_V1);
}

#[test]
fn build_tree_v2() {
    let tree = Node::root().child(Node::new2(Body).children(vec![
        Node::new2(Div).children(vec![
            Node::new2(H1),
            Node::new2(P),
            Node::new2(P).child2(Box::new(Em)),
            Node::new2(Hr),
        ]),
        Node::new2(Div).child(Node::new2(Ul).children(vec![
            Node::new2(Li),
            Node::new2(Li),
            Node::new2(Li),
        ])),
    ]));

    assert_eq!(tree.render_string(), TREE_V1);
}

#[test]
fn build_tree_v3() {
    let tree = Node::root().child(node(Body).children(vec![
        node(Div).children(vec![node(H1), node(P), node(P).child3(Em), node(Hr)]),
        node(Div).child(node(Ul).children(vec![node(Li), node(Li), node(Li)])),
    ]));

    assert_eq!(tree.render_string(), TREE_V1);
}

#[test]
fn build_tree_v4() {
    let tree = node(Body).children(vec![
        node(Div).children(vec![node(H1), node(P), node(P).child3(Em), node(Hr)]),
        node(Div).child(node(Ul).children(vec![node(Li), node(Li), node(Li)])),
    ]);

    assert_eq!(tree.render_string(), TREE_V1);
}

#[test]
fn build_tree_v5() {
    let tree = node(Body)
        .child(
            node(Div)
                .child(node(H1))
                .child(node(P))
                .child(node(P).child(node(Em)))
                .child(node(Hr)),
        )
        .child(
            node(Div).child(
                node(Ul)
                    .child(node(Li))
                    .child(node(Li))
                    .child(node(Li))
                    .child(node(Li)),
            ),
        );

    assert_eq!(
        tree.render_string(),
        "<body><div><h1></h1><p></p><p><em></em></p><hr></div>\
<div><ul><li></li><li></li><li></li><li></li></ul></div></body>"
    );
}

#[test]
fn build_tree_v6() {
    let tree = node(Body)
        .child(
            node(Div)
                .child3(H1)
                .child3(P)
                .child(node(P).child3(Em))
                .child3(Hr),
        )
        .child(
            node(Div).child(
                node(Ul)
                    .child3(Li)
                    .child3(Li)
                    .child3(Li)
                    .child3(Li)
                    .child3(Li),
            ),
        );

    assert_eq!(
        tree.render_string(),
        "<body><div><h1></h1><p></p><p><em></em></p><hr></div>\
<div><ul><li></li><li></li><li></li><li></li><li></li></ul></div></body>"
    );
}

#[test]
fn build_tree_v8() {
    let tree = o(Body)
        .kid(o(Div).kid(H1).kid(P).kid(o(P).kid(Em)).kid(Hr))
        .kid(o(Div).kid(o(Ul).kid(Li).kid(Li).kid(Li).kid(Li).kid(Li)));

    assert_eq!(
        tree.render_string(),
        "<body><div><h1></h1><p></p><p><em></em></p><hr></div>\
<div><ul><li></li><li></li><li></li><li></li><li></li></ul></div></body>"
    );
}

#[test]
fn build_tree_v9() {
    let tree = o(Body)
        .kid(
            o(Div)
                .add_attr(html_tags::global_attributes::Id::new("content"))
                .kid(H1)
                .kid(P)
                .kid(o(P).kid(Em))
                .kid(Hr),
        )
        .kid(
            o(Div)
                .add_attr(html_tags::global_attributes::Id::new("nav"))
                .kid(o(Ul).kid(Li).kid(Li).kid(Li).kid(Li).kid(Li)),
        );

    assert_eq!(
        tree.render_string(),
        "<body><div id=\"content\"><h1></h1><p></p><p><em></em></p><hr></div>\
<div id=\"nav\"><ul><li></li><li></li><li></li><li></li><li></li></ul></div></body>"
    );
}

#[test]
fn build_tree_v10() {
    let tree = o(Body)
        .kid(
            o(Div)
                .add_attr(html_tags::global_attributes::Id::new("content"))
                .kid(o(H1).add_text("Heading here"))
                .kid(o(P).add_text("Lorem ipsum dolor sit amet."))
                .kid(
                    o(P).add_text("Lorem ipsum dolor ")
                        .kid(o(Em).add_text("sit"))
                        .add_text(" amet."),
                )
                .kid(Hr),
        )
        .kid(
            o(Div).add_attr(html_tags::global_attributes::Id::new("nav")).kid(
                o(Ul)
                    .kid(o(Li).add_text("item 1"))
                    .kid(o(Li).add_text("item 2"))
                    .kid(o(Li).add_text("item 3"))
                    .kid(o(Li).add_text("item 4"))
                    .kid(o(Li).add_text("item 5")),
            ),
        );

    assert_eq!(
        tree.render_string(),
        "<body><div id=\"content\"><h1>Heading here</h1>\
<p>Lorem ipsum dolor sit amet.</p>\
<p>Lorem ipsum dolor <em>sit</em> amet.</p><hr></div>\
<div id=\"nav\"><ul><li>item 1</li><li>item 2</li><li>item 3</li>\
<li>item 4</li><li>item 5</li></ul></div></body>"
    );
}

#[test]
fn build_list_v1() {
    let mut list = o(Ul);
    let mut expected = String::from("<ul>");

    for index in 0..10 {
        let contents = format!("Hi I am {index}- ");

        list.push_kid(o(Li).add_text(&contents).kid(o(Em).add_text("emphasis!")));
        expected.push_str(&format!("<li>{contents}<em>emphasis!</em></li>"));
    }
    expected.push_str("</ul>");

    assert_eq!(list.render_string(), expected);
}

#[test]
fn add_attribute_from_tuple() {
    let key = "key";
    let value_owned = "value".to_string();
    let value = "value";

    let _builds = Node::root().add_attr((key, value_owned));
    let _builds = Node::root().add_attr((key, value));
}

#[test]
fn custom_attribute() {
    let expected = r#"<html op="news" lang="en"></html>"#;
    let rendered = o(Html)
        .add_attr(("op", "news"))
        .add_attr(Lang::English)
        .render_string();

    assert_eq!(rendered, expected);
}
