//! The document tree: nodes, their builder API, and the renderer.
//!
//! A [`Node`] owns the captured description of one tag — name, marker
//! behaviour, tag-specific attributes — plus global attributes, a
//! deduplicated class list, optional text, and ordered children.  Its
//! mathematical value is a [`NodeView`], and rendering is specified
//! exactly by [`render_text`].

use vstd::prelude::*;

use crate::global_attributes::{
    attr_view_of, pair_of, pairs_view, AttrPair, AttrView, Attribute, Id, Style, Title,
};
use crate::science_lab::NodeExt;
use crate::strutil::split_whitespace;
use crate::strutil::split_ws;
use crate::tags::invisible::Invisible;
use crate::tags::root::Root;
use crate::tags::Tag;

verus! {

/// The mathematical value of a node: what rendering depends on, and
/// nothing else.
#[verifier::ext_equal]
pub ghost struct NodeView {
    /// The tag's name; the empty sentinel for structural variants.
    pub tag_name: Seq<char>,
    /// Whether rendering emits an opening `<tag ...>` marker.
    pub emits_open: bool,
    /// Whether rendering emits a closing `</tag>` marker.
    pub emits_close: bool,
    /// The tag-specific attributes, when the tag has any.
    pub tag_attrs: Option<Seq<AttrView>>,
    /// The global attributes, in insertion order.
    pub global_attrs: Seq<AttrView>,
    /// The classes, deduplicated, in insertion order.
    pub classes: Seq<Seq<char>>,
    /// The node's own text, rendered before its children.
    pub text: Option<Seq<char>>,
    /// The child nodes, in order.
    pub children: Seq<NodeView>,
}

/// A node of the document tree.
///
/// Built through the constructors and chained builder calls below; no
/// operation on a node can fail.
#[derive(Debug)]
pub struct Node {
    tag_name: String,
    emits_open: bool,
    emits_close: bool,
    tag_attrs: Option<Vec<AttrPair>>,
    global_attributes: Vec<AttrPair>,
    classes: Vec<String>,
    text: Option<String>,
    children: Vec<Node>,
}

/// The mathematical value of a node.
pub closed spec fn node_view(n: Node) -> NodeView
    decreases n,
{
    NodeView {
        tag_name: n.tag_name@,
        emits_open: n.emits_open,
        emits_close: n.emits_close,
        tag_attrs: match n.tag_attrs {
            Option::Some(v) => Some(pairs_view(v@)),
            Option::None => None,
        },
        global_attrs: pairs_view(n.global_attributes@),
        classes: n.classes@.map_values(|c: String| c@),
        text: match n.text {
            Option::Some(t) => Some(t@),
            Option::None => None,
        },
        children: forest_view(n.children@),
    }
}

/// The mathematical values of a list of nodes.
pub closed spec fn forest_view(s: Seq<Node>) -> Seq<NodeView>
    decreases s,
{
    if s.len() == 0 {
        Seq::empty()
    } else {
        forest_view(s.drop_last()).push(node_view(s.last()))
    }
}

impl View for Node {
    type V = NodeView;

    closed spec fn view(&self) -> NodeView {
        node_view(*self)
    }
}

/// A forest's view has one entry per node: the node's own view.
pub proof fn lemma_forest_view(s: Seq<Node>)
    ensures
        forest_view(s).len() == s.len(),
        forall|i: int| 0 <= i < s.len() ==> #[trigger] forest_view(s)[i] == s[i]@,
    decreases s,
{
    if s.len() > 0 {
        lemma_forest_view(s.drop_last());
    }
}

/// Pushing a node onto a list pushes its view onto the list's view.
pub proof fn lemma_forest_view_push(s: Seq<Node>, n: Node)
    ensures
        forest_view(s.push(n)) == forest_view(s).push(n@),
{
    assert(s.push(n).drop_last() =~= s);
    assert(s.push(n).last() == n);
}

/// A forest's view distributes over concatenation.
pub proof fn lemma_forest_view_append(a: Seq<Node>, b: Seq<Node>)
    ensures
        forest_view(a + b) == forest_view(a) + forest_view(b),
    decreases b,
{
    if b.len() == 0 {
        assert(a + b =~= a);
        assert(forest_view(a) + forest_view(b) =~= forest_view(a));
    } else {
        lemma_forest_view_append(a, b.drop_last());
        assert((a + b).drop_last() =~= a + b.drop_last());
        assert((a + b).last() == b.last());
        assert(forest_view(a) + forest_view(b) =~= (forest_view(a) + forest_view(
            b.drop_last(),
        )).push(node_view(b.last())));
    }
}

// ------------------------------------------------------------------
// The rendering specification.
// ------------------------------------------------------------------
/// The text one attribute renders as: ` name="value"`.
pub open spec fn attr_text(a: AttrView) -> Seq<char> {
    " "@ + a.name + "=\""@ + a.value + "\""@
}

/// The text a list of attributes renders as, in order.
pub open spec fn attrs_text(s: Seq<AttrView>) -> Seq<char>
    decreases s.len(),
{
    if s.len() == 0 {
        Seq::empty()
    } else {
        attrs_text(s.drop_last()) + attr_text(s.last())
    }
}

/// The classes joined by single spaces.
pub open spec fn classes_text(cs: Seq<Seq<char>>) -> Seq<char>
    decreases cs.len(),
{
    if cs.len() == 0 {
        Seq::empty()
    } else if cs.len() == 1 {
        cs[0]
    } else {
        classes_text(cs.drop_last()) + " "@ + cs.last()
    }
}

/// The single `class` attribute a class list renders as; nothing when
/// the list is empty.
pub open spec fn class_attr_text(cs: Seq<Seq<char>>) -> Seq<char> {
    if cs.len() == 0 {
        Seq::empty()
    } else {
        " class=\""@ + classes_text(cs) + "\""@
    }
}

/// The text the tag-specific attributes render as; nothing when the tag
/// reports none.
pub open spec fn opt_attrs_text(attrs: Option<Seq<AttrView>>) -> Seq<char> {
    match attrs {
        Option::Some(s) => attrs_text(s),
        Option::None => Seq::empty(),
    }
}

/// A node's opening marker: the tag name, then the class attribute, the
/// global attributes, and the tag-specific attributes, in that fixed
/// order.
pub open spec fn open_tag_text(v: NodeView) -> Seq<char> {
    "<"@ + v.tag_name + class_attr_text(v.classes) + attrs_text(v.global_attrs) + opt_attrs_text(
        v.tag_attrs,
    ) + ">"@
}

/// A node's closing marker.
pub open spec fn close_tag_text(v: NodeView) -> Seq<char> {
    "</"@ + v.tag_name + ">"@
}

/// A node's own text, or nothing.
pub open spec fn text_text(t: Option<Seq<char>>) -> Seq<char> {
    match t {
        Option::Some(s) => s,
        Option::None => Seq::empty(),
    }
}

/// What a node renders as: the opening marker if the tag emits one, then
/// the node's text, then its children in order, then the closing marker
/// if the tag emits one.
pub open spec fn render_text(v: NodeView) -> Seq<char>
    decreases v,
{
    (if v.emits_open {
        open_tag_text(v)
    } else {
        Seq::empty()
    }) + text_text(v.text) + render_forest_text(v.children) + (if v.emits_close {
        close_tag_text(v)
    } else {
        Seq::empty()
    })
}

/// What a forest renders as: each node in order.
pub open spec fn render_forest_text(s: Seq<NodeView>) -> Seq<char>
    decreases s,
{
    if s.len() == 0 {
        Seq::empty()
    } else {
        render_forest_text(s.drop_last()) + render_text(s.last())
    }
}

// ------------------------------------------------------------------
// The mathematical builders the node operations are specified by.
// ------------------------------------------------------------------
/// The view of a fresh node wrapping the given tag.
pub open spec fn tag_view<T: Tag>(tag: T) -> NodeView {
    NodeView {
        tag_name: tag.name_spec(),
        emits_open: tag.open_spec(),
        emits_close: tag.close_spec(),
        tag_attrs: tag.attrs_spec(),
        global_attrs: Seq::empty(),
        classes: Seq::empty(),
        text: None,
        children: Seq::empty(),
    }
}

/// The view of a fresh structural grouping node.
pub open spec fn root_view() -> NodeView {
    NodeView {
        tag_name: ""@,
        emits_open: false,
        emits_close: false,
        tag_attrs: None,
        global_attrs: Seq::empty(),
        classes: Seq::empty(),
        text: None,
        children: Seq::empty(),
    }
}

/// The view of the invisible pseudo-child that carries free text.
pub open spec fn text_child_view(t: Seq<char>) -> NodeView {
    NodeView { text: Some(t), ..root_view() }
}

/// Appending one child.
pub open spec fn child_spec(v: NodeView, c: NodeView) -> NodeView {
    NodeView { children: v.children.push(c), ..v }
}

/// Appending one global attribute.
pub open spec fn add_attr_spec(v: NodeView, a: AttrView) -> NodeView {
    NodeView { global_attrs: v.global_attrs.push(a), ..v }
}

/// Inserting one class: appended at the end unless already present.
pub open spec fn insert_class(cs: Seq<Seq<char>>, t: Seq<char>) -> Seq<Seq<char>> {
    if cs.contains(t) {
        cs
    } else {
        cs.push(t)
    }
}

/// Inserting each class of a list in turn.
pub open spec fn insert_classes(cs: Seq<Seq<char>>, ts: Seq<Seq<char>>) -> Seq<Seq<char>>
    decreases ts.len(),
{
    if ts.len() == 0 {
        cs
    } else {
        insert_class(insert_classes(cs, ts.drop_last()), ts.last())
    }
}

/// Adding a class string: each of its whitespace-separated tokens is
/// inserted into the class list, skipping those already present.
pub open spec fn add_class_spec(v: NodeView, s: Seq<char>) -> NodeView {
    NodeView { classes: insert_classes(v.classes, split_ws(s)), ..v }
}

/// Adding free text: an invisible text-bearing pseudo-child is appended.
pub open spec fn add_text_spec(v: NodeView, t: Seq<char>) -> NodeView {
    child_spec(v, text_child_view(t))
}

// ------------------------------------------------------------------
// Small facts about the rendering specification.
// ------------------------------------------------------------------
/// Attributes render in insertion order: appending an attribute appends
/// its text.
pub proof fn lemma_attrs_text_push(s: Seq<AttrView>, a: AttrView)
    ensures
        attrs_text(s.push(a)) == attrs_text(s) + attr_text(a),
{
    assert(s.push(a).drop_last() =~= s);
    assert(s.push(a).last() == a);
}

/// Children render in order: appending a child appends its rendering.
pub proof fn lemma_render_forest_push(s: Seq<NodeView>, v: NodeView)
    ensures
        render_forest_text(s.push(v)) == render_forest_text(s) + render_text(v),
{
    assert(s.push(v).drop_last() =~= s);
    assert(s.push(v).last() == v);
}

/// A forest's rendering distributes over concatenation.
pub proof fn lemma_render_forest_append(a: Seq<NodeView>, b: Seq<NodeView>)
    ensures
        render_forest_text(a + b) == render_forest_text(a) + render_forest_text(b),
    decreases b,
{
    if b.len() == 0 {
        assert(a + b =~= a);
        assert(render_forest_text(a) + render_forest_text(b) =~= render_forest_text(a));
    } else {
        lemma_render_forest_append(a, b.drop_last());
        assert((a + b).drop_last() =~= a + b.drop_last());
        assert((a + b).last() == b.last());
        assert(render_forest_text(a) + render_forest_text(b) =~= render_forest_text(a)
            + render_forest_text(b.drop_last()) + render_text(b.last()));
    }
}

// ------------------------------------------------------------------
// The renderer.
// ------------------------------------------------------------------
/// Append each attribute of a captured list as ` name="value"`.
fn append_attrs(writer: &mut String, attrs: &Vec<AttrPair>)
    ensures
        final(writer)@ == old(writer)@ + attrs_text(pairs_view(attrs@)),
{
    let ghost pv = pairs_view(attrs@);
    let mut k: usize = 0;
    while k < attrs.len()
        invariant
            k <= attrs.len(),
            pv == pairs_view(attrs@),
            pv.len() == attrs@.len(),
            writer@ == old(writer)@ + attrs_text(pv.take(k as int)),
        decreases attrs.len() - k,
    {
        writer.append(" ");
        writer.append(attrs[k].name.as_str());
        writer.append("=\"");
        writer.append(attrs[k].value.as_str());
        writer.append("\"");
        proof {
            assert(pv.take(k as int + 1).drop_last() =~= pv.take(k as int));
            assert(pv.take(k as int + 1).last() == attrs@[k as int]@);
            assert(writer@ =~= old(writer)@ + attrs_text(pv.take(k as int + 1)));
        }
        k += 1;
    }
    proof {
        assert(pv.take(attrs@.len() as int) =~= pv);
    }
}

/// Append the classes joined by single spaces.
fn append_classes(writer: &mut String, classes: &Vec<String>)
    ensures
        final(writer)@ == old(writer)@ + classes_text(classes@.map_values(|c: String| c@)),
{
    let ghost cls = classes@.map_values(|c: String| c@);
    let mut k: usize = 0;
    while k < classes.len()
        invariant
            k <= classes.len(),
            cls == classes@.map_values(|c: String| c@),
            cls.len() == classes@.len(),
            writer@ == old(writer)@ + classes_text(cls.take(k as int)),
        decreases classes.len() - k,
    {
        if k > 0 {
            writer.append(" ");
        }
        writer.append(classes[k].as_str());
        proof {
            assert(cls.take(k as int + 1).drop_last() =~= cls.take(k as int));
            assert(cls.take(k as int + 1).last() == classes@[k as int]@);
            if k == 0 {
                assert(writer@ =~= old(writer)@ + classes_text(cls.take(1)));
            } else {
                assert(writer@ =~= old(writer)@ + classes_text(cls.take(k as int + 1)));
            }
        }
        k += 1;
    }
    proof {
        assert(cls.take(classes@.len() as int) =~= cls);
    }
}

impl Node {
    /// An empty structural grouping node: it renders no markup of its
    /// own, only its children.
    pub fn root() -> (r: Self)
        ensures
            r@ == root_view(),
    {
        let r = Self::new2(Root);
        proof {
            assert(r@ =~= root_view());
        }
        r
    }

    /// Wrap a boxed tag value as a fresh node.
    pub fn new<T: Tag>(tag: Box<T>) -> (r: Self)
        ensures
            r@ == tag_view(*tag),
    {
        Self::new2(*tag)
    }

    /// Wrap a tag value as a fresh node with no attributes, classes,
    /// text, or children.
    pub fn new2<T: Tag>(tag: T) -> (r: Self)
        ensures
            r@ == tag_view(tag),
    {
        let r = Node {
            tag_name: tag.name().to_owned(),
            emits_open: tag.open_tag(),
            emits_close: tag.close_tag(),
            tag_attrs: tag.attributes(),
            global_attributes: Vec::new(),
            classes: Vec::new(),
            text: None,
            children: Vec::new(),
        };
        proof {
            assert(r@.classes =~= Seq::<Seq<char>>::empty());
            assert(r@.global_attrs =~= Seq::<AttrView>::empty());
            assert(r@ =~= tag_view(tag));
        }
        r
    }

    /// Render the tree to a fresh string.
    pub fn render_string(&self) -> (r: String)
        ensures
            r@ == render_text(self@),
    {
        let mut buf = String::new();
        self.render_writer(&mut buf);
        proof {
            assert(Seq::<char>::empty() + render_text(self@) =~= render_text(self@));
        }
        buf
    }

    /// Render the tree, appending to the given text sink.
    ///
    /// Recurses through child nodes and writes as it traverses, closing
    /// opened tags on the way back out.
    #[verifier::rlimit(60)]
    pub fn render_writer(&self, writer: &mut String)
        ensures
            final(writer)@ == old(writer)@ + render_text(self@),
        decreases *self,
    {
        let ghost v = self@;
        let ghost w0 = writer@;
        let ghost part_open: Seq<char> = if v.emits_open {
            open_tag_text(v)
        } else {
            Seq::empty()
        };
        if self.emits_open {
            writer.append("<");
            writer.append(self.tag_name.as_str());
            if self.classes.len() > 0 {
                writer.append(" class=\"");
                append_classes(writer, &self.classes);
                writer.append("\"");
                proof {
                    assert(v.classes.len() > 0);
                    assert(writer@ =~= w0 + "<"@ + v.tag_name + class_attr_text(v.classes));
                }
            } else {
                proof {
                    assert(v.classes.len() == 0);
                    assert(writer@ =~= w0 + "<"@ + v.tag_name + class_attr_text(v.classes));
                }
            }
            append_attrs(writer, &self.global_attributes);
            match &self.tag_attrs {
                Some(ats) => {
                    append_attrs(writer, ats);
                    proof {
                        assert(opt_attrs_text(v.tag_attrs) == attrs_text(pairs_view(ats@)));
                    }
                },
                None => {
                    proof {
                        assert(opt_attrs_text(v.tag_attrs) =~= Seq::<char>::empty());
                    }
                },
            }
            writer.append(">");
            proof {
                assert(writer@ =~= w0 + part_open);
            }
        } else {
            proof {
                assert(writer@ =~= w0 + part_open);
            }
        }
        let ghost w1 = writer@;
        match &self.text {
            Some(t) => writer.append(t.as_str()),
            None => (),
        }
        proof {
            assert(writer@ =~= w1 + text_text(v.text));
        }
        let ghost w2 = writer@;
        proof {
            lemma_forest_view(self.children@);
        }
        let mut k: usize = 0;
        while k < self.children.len()
            invariant
                k <= self.children.len(),
                v == self@,
                v.children == forest_view(self.children@),
                v.children.len() == self.children@.len(),
                forall|i: int|
                    0 <= i < self.children@.len() ==> #[trigger] forest_view(self.children@)[i]
                        == self.children@[i]@,
                writer@ == w2 + render_forest_text(v.children.take(k as int)),
            decreases self.children.len() - k,
        {
            self.children[k].render_writer(writer);
            proof {
                assert(v.children.take(k as int + 1).drop_last() =~= v.children.take(k as int));
                assert(v.children.take(k as int + 1).last() == self.children@[k as int]@);
                assert(writer@ =~= w2 + render_forest_text(v.children.take(k as int + 1)));
            }
            k += 1;
        }
        proof {
            assert(v.children.take(v.children.len() as int) =~= v.children);
        }
        let ghost w3 = writer@;
        if self.emits_close {
            writer.append("</");
            writer.append(self.tag_name.as_str());
            writer.append(">");
            proof {
                assert(writer@ =~= w3 + close_tag_text(v));
            }
        }
        proof {
            if v.emits_close {
                assert(writer@ =~= w0 + render_text(v));
            } else {
                assert(writer@ =~= w3 + Seq::<char>::empty());
                assert(writer@ =~= w0 + render_text(v));
            }
        }
    }

    /// Append one fully-formed child node; the order of calls is the
    /// rendered order.
    pub fn child(self, child: Self) -> (r: Self)
        ensures
            r@ == child_spec(self@, child@),
    {
        let ghost c = child@;
        let mut r = self;
        r.children.push(child);
        proof {
            lemma_forest_view_push(self.children@, child);
            assert(r@ =~= child_spec(self@, c));
        }
        r
    }

    /// Append a fresh node wrapping the given boxed tag.
    pub fn child2<T: Tag>(self, tag: Box<T>) -> (r: Self)
        ensures
            r@ == child_spec(self@, tag_view(*tag)),
    {
        self.child(Self::new(tag))
    }

    /// Append a fresh node wrapping the given tag.
    pub fn child3<T: Tag>(self, tag: T) -> (r: Self)
        ensures
            r@ == child_spec(self@, tag_view(tag)),
    {
        self.child(Self::new2(tag))
    }

    /// Append anything convertible to a node.
    pub fn child4<C: NodeExt>(self, child: C) -> (r: Self)
        ensures
            r@ == child_spec(self@, child.as_node_view()),
    {
        self.child(child.into_node())
    }

    /// Append anything convertible to a node — a bare tag value or an
    /// already-built node.
    pub fn kid<K: NodeExt>(self, kid: K) -> (r: Self)
        ensures
            r@ == child_spec(self@, kid.as_node_view()),
    {
        self.child4(kid)
    }

    /// Append a child in place.
    pub fn push_kid<K: NodeExt>(&mut self, kid: K)
        ensures
            final(self)@ == child_spec(old(self)@, kid.as_node_view()),
    {
        let ghost c = kid.as_node_view();
        let n = kid.into_node();
        self.children.push(n);
        proof {
            lemma_forest_view_push(old(self).children@, n);
            assert(self@ =~= child_spec(old(self)@, c));
        }
    }

    /// Bulk-append an ordered list of child nodes.
    pub fn children(self, children: Vec<Self>) -> (r: Self)
        ensures
            r@ == (NodeView { children: self@.children + forest_view(children@), ..self@ }),
    {
        let ghost given = children@;
        let mut r = self;
        let mut rest = children;
        r.children.append(&mut rest);
        proof {
            lemma_forest_view_append(self.children@, given);
            assert(r@ =~= (NodeView {
                children: self@.children + forest_view(given),
                ..self@
            }));
        }
        r
    }

    /// Append one attribute to the global attribute list; append order
    /// is preserved at render time.
    pub fn add_attr<A: Attribute>(self, attribute: A) -> (r: Self)
        ensures
            r@ == add_attr_spec(self@, attr_view_of(attribute)),
    {
        let ghost a = attr_view_of(attribute);
        let mut r = self;
        r.global_attributes.push(pair_of(&attribute));
        proof {
            assert(r@.global_attrs =~= self@.global_attrs.push(a));
            assert(r@ =~= add_attr_spec(self@, a));
        }
        r
    }

    /// Append a `style` attribute with the given style text.
    pub fn add_style(self, style: &str) -> (r: Self)
        ensures
            r@ == add_attr_spec(self@, AttrView { name: "style"@, value: style@ }),
    {
        self.add_attr(Style::new(style))
    }

    /// Insert each whitespace-separated token of the given class string
    /// into the class set; re-adding an existing class is a no-op.
    pub fn add_class(self, class: &str) -> (r: Self)
        ensures
            r@ == add_class_spec(self@, class@),
    {
        let ghost toks = split_ws(class@);
        let tokens = split_whitespace(class);
        let mut r = self;
        let mut k: usize = 0;
        proof {
            assert(toks.take(0) =~= Seq::<Seq<char>>::empty());
            assert(r@ =~= (NodeView {
                classes: insert_classes(self@.classes, toks.take(0)),
                ..self@
            }));
        }
        while k < tokens.len()
            invariant
                k <= tokens.len(),
                tokens@.map_values(|t: String| t@) == toks,
                toks.len() == tokens@.len(),
                r@ == (NodeView { classes: insert_classes(self@.classes, toks.take(k as int)), ..self@ }),
            decreases tokens.len() - k,
        {
            let ghost cur = r@.classes;
            let ghost tok = toks[k as int];
            let mut found = false;
            let mut j: usize = 0;
            while j < r.classes.len()
                invariant
                    j <= r.classes.len(),
                    cur == r@.classes,
                    cur.len() == r.classes@.len(),
                    forall|m: int| 0 <= m < r.classes@.len() ==> #[trigger] cur[m] == r.classes@[m]@,
                    tok == toks[k as int],
                    k < tokens@.len(),
                    tokens@[k as int]@ == tok,
                    found ==> cur.contains(tok),
                    !found ==> forall|m: int| 0 <= m < j ==> #[trigger] cur[m] != tok,
                decreases r.classes.len() - j,
            {
                if r.classes[j] == tokens[k] {
                    found = true;
                    proof {
                        assert(cur[j as int] == tok);
                        assert(cur.contains(tok));
                    }
                }
                j += 1;
            }
            let ghost before = r@;
            if !found {
                proof {
                    assert(!cur.contains(tok));
                }
                r.classes.push(tokens[k].clone());
                proof {
                    assert(r@.classes =~= cur.push(tok));
                    assert(r@.classes == insert_class(cur, tok));
                    assert(r@ =~= (NodeView { classes: insert_class(cur, tok), ..before }));
                }
            } else {
                proof {
                    assert(insert_class(cur, tok) == cur);
                    assert(r@ =~= (NodeView { classes: insert_class(cur, tok), ..before }));
                }
            }
            proof {
                assert(toks.take(k as int + 1).drop_last() =~= toks.take(k as int));
                assert(toks.take(k as int + 1).last() == tok);
                assert(r@ =~= (NodeView {
                    classes: insert_classes(self@.classes, toks.take(k as int + 1)),
                    ..self@
                }));
            }
            k += 1;
        }
        proof {
            assert(toks.take(toks.len() as int) =~= toks);
        }
        r
    }

    /// Append an `id` attribute with the given identifier.
    pub fn set_id(self, id: &str) -> (r: Self)
        ensures
            r@ == add_attr_spec(self@, AttrView { name: "id"@, value: id@ }),
    {
        self.add_attr(Id::new(id))
    }

    /// Append a `title` attribute with the given advisory text.
    pub fn set_title(self, title: &str) -> (r: Self)
        ensures
            r@ == add_attr_spec(self@, AttrView { name: "title"@, value: title@ }),
    {
        self.add_attr(Title::new(title))
    }

    /// Set the node's own text.
    fn set_text(self, text: &str) -> (r: Self)
        ensures
            r@ == (NodeView { text: Some(text@), ..self@ }),
    {
        let mut r = self;
        r.text = Some(text.to_owned());
        proof {
            assert(r@ =~= (NodeView { text: Some(text@), ..self@ }));
        }
        r
    }

    /// Append an invisible pseudo-child carrying the given text, so that
    /// free text and element children share the child list.
    pub fn add_text(self, text: &str) -> (r: Self)
        ensures
            r@ == add_text_spec(self@, text@),
    {
        let node: Self = Self::new2(Invisible);
        let child = node.set_text(text);
        proof {
            assert(child@ =~= text_child_view(text@));
        }
        self.child(child)
    }
}

impl Clone for Node {
    /// Cloning preserves the node's mathematical value.
    fn clone(&self) -> (res: Self)
        ensures
            res@ == self@,
        decreases *self,
    {
        let mut kids: Vec<Node> = Vec::new();
        let mut k: usize = 0;
        while k < self.children.len()
            invariant
                k <= self.children.len(),
                kids@.len() == k,
                forall|i: int| 0 <= i < k ==> #[trigger] kids@[i]@ == self.children@[i]@,
            decreases self.children.len() - k,
        {
            kids.push(self.children[k].clone());
            k += 1;
        }
        let res = Node {
            tag_name: self.tag_name.clone(),
            emits_open: self.emits_open,
            emits_close: self.emits_close,
            tag_attrs: match &self.tag_attrs {
                Some(v) => Some(clone_pairs(v)),
                None => None,
            },
            global_attributes: clone_pairs(&self.global_attributes),
            classes: clone_strings(&self.classes),
            text: match &self.text {
                Some(t) => Some(t.clone()),
                None => None,
            },
            children: kids,
        };
        proof {
            lemma_forest_view(res.children@);
            lemma_forest_view(self.children@);
            assert(forest_view(res.children@) =~= forest_view(self.children@));
            assert(res@ =~= self@);
        }
        res
    }
}

/// Clone a list of captured attribute pairs, preserving its value.
fn clone_pairs(v: &Vec<AttrPair>) -> (r: Vec<AttrPair>)
    ensures
        r@ == v@,
{
    let mut r: Vec<AttrPair> = Vec::new();
    let mut k: usize = 0;
    while k < v.len()
        invariant
            k <= v.len(),
            r@.len() == k,
            forall|i: int| 0 <= i < k ==> #[trigger] r@[i] == v@[i],
        decreases v.len() - k,
    {
        r.push(AttrPair { name: v[k].name.clone(), value: v[k].value.clone() });
        k += 1;
    }
    proof {
        assert(r@ =~= v@);
    }
    r
}

/// Clone a list of strings, preserving its value.
fn clone_strings(v: &Vec<String>) -> (r: Vec<String>)
    ensures
        r@ == v@,
{
    let mut r: Vec<String> = Vec::new();
    let mut k: usize = 0;
    while k < v.len()
        invariant
            k <= v.len(),
            r@.len() == k,
            forall|i: int| 0 <= i < k ==> #[trigger] r@[i] == v@[i],
        decreases v.len() - k,
    {
        r.push(v[k].clone());
        k += 1;
    }
    proof {
        assert(r@ =~= v@);
    }
    r
}

/// Wrap a tag value as a fresh node.
fn node<T: Tag>(tag: T) -> (r: Node)
    ensures
        r@ == tag_view(tag),
{
    Node::new2(tag)
}

/// Shorter version of [`node`]: wrap a tag value as a fresh node.
pub fn o<T: Tag>(tag: T) -> (r: Node)
    ensures
        r@ == tag_view(tag),
{
    node(tag)
}

// ------------------------------------------------------------------
// Laws of rendering and of the class set.
// ------------------------------------------------------------------
/// Rendering is deterministic: what a tree renders as is a function of
/// its value alone, so two renderings of the same tree are identical.
pub proof fn lemma_render_deterministic(v: NodeView, r1: Seq<char>, r2: Seq<char>)
    requires
        r1 == render_text(v),
        r2 == render_text(v),
    ensures
        r1 == r2,
{
}

/// A structural node — one whose tag emits neither marker — with no text
/// of its own renders exactly as the concatenation of its children's
/// renderings, contributing no markers itself.
pub proof fn lemma_structural_render(v: NodeView)
    requires
        !v.emits_open,
        !v.emits_close,
        v.text is None,
    ensures
        render_text(v) == render_forest_text(v.children),
{
    assert(render_text(v) =~= render_forest_text(v.children));
}

/// A void node — one whose tag emits an opening marker but no closing
/// marker — renders its unmatched opening marker, then its text, then
/// its children, with nothing after them; a leaf without text renders
/// the opening marker alone.
pub proof fn lemma_void_render(v: NodeView)
    requires
        v.emits_open,
        !v.emits_close,
    ensures
        render_text(v) == open_tag_text(v) + text_text(v.text) + render_forest_text(v.children),
        v.children.len() == 0 && v.text is None ==> render_text(v) == open_tag_text(v),
{
    assert(render_text(v) =~= open_tag_text(v) + text_text(v.text) + render_forest_text(
        v.children,
    ));
    if v.children.len() == 0 && v.text is None {
        assert(render_text(v) =~= open_tag_text(v));
    }
}

/// Attribute ordering: inside the opening marker, the class attribute
/// (when any class is present) precedes the global attributes, which
/// precede the tag-specific attributes, in that fixed order; within each
/// group, insertion order is preserved (`lemma_attrs_text_push`).
pub proof fn lemma_attribute_order(v: NodeView)
    requires
        v.emits_open,
    ensures
        render_text(v) == "<"@ + v.tag_name + class_attr_text(v.classes) + attrs_text(
            v.global_attrs,
        ) + opt_attrs_text(v.tag_attrs) + ">"@ + text_text(v.text) + render_forest_text(v.children)
            + (if v.emits_close {
            close_tag_text(v)
        } else {
            Seq::empty()
        }),
{
    assert(render_text(v) =~= "<"@ + v.tag_name + class_attr_text(v.classes) + attrs_text(
        v.global_attrs,
    ) + opt_attrs_text(v.tag_attrs) + ">"@ + text_text(v.text) + render_forest_text(v.children) + (
    if v.emits_close {
        close_tag_text(v)
    } else {
        Seq::empty()
    }));
}

/// An invisible text-bearing pseudo-child renders exactly its text.
pub proof fn lemma_text_child_render(t: Seq<char>)
    ensures
        render_text(text_child_view(t)) == t,
{
    assert(render_forest_text(Seq::<NodeView>::empty()) =~= Seq::<char>::empty());
    assert(render_text(text_child_view(t)) =~= t);
}

/// Text and children interleave in call order: adding text `a`, then a
/// child `x`, then text `b` renders — after the node's own parts — `a`,
/// then `x`'s full rendering, then `b`, in that sequence.
pub proof fn lemma_text_kid_text_order(v: NodeView, a: Seq<char>, x: NodeView, b: Seq<char>)
    ensures
        ({
            let w = add_text_spec(child_spec(add_text_spec(v, a), x), b);
            render_text(w) == (if v.emits_open {
                open_tag_text(w)
            } else {
                Seq::empty()
            }) + text_text(v.text) + render_forest_text(v.children) + a + render_text(x) + b + (
            if v.emits_close {
                close_tag_text(v)
            } else {
                Seq::empty()
            })
        }),
{
    let w = add_text_spec(child_spec(add_text_spec(v, a), x), b);
    lemma_text_child_render(a);
    lemma_text_child_render(b);
    lemma_render_forest_push(v.children, text_child_view(a));
    lemma_render_forest_push(v.children.push(text_child_view(a)), x);
    lemma_render_forest_push(v.children.push(text_child_view(a)).push(x), text_child_view(b));
    assert(w.children == v.children.push(text_child_view(a)).push(x).push(text_child_view(b)));
    assert(render_forest_text(w.children) =~= render_forest_text(v.children) + a + render_text(x)
        + b);
    assert(render_text(w) =~= (if v.emits_open {
        open_tag_text(w)
    } else {
        Seq::empty()
    }) + text_text(v.text) + render_forest_text(v.children) + a + render_text(x) + b + (
    if v.emits_close {
        close_tag_text(v)
    } else {
        Seq::empty()
    }));
}

/// Membership in a pushed list: the pushed element, or anything already
/// present.
proof fn lemma_contains_push(s: Seq<Seq<char>>, t: Seq<char>, x: Seq<char>)
    ensures
        s.push(t).contains(x) <==> (s.contains(x) || x == t),
{
    if s.push(t).contains(x) {
        let i = choose|i: int| 0 <= i < s.push(t).len() && s.push(t)[i] == x;
        if i < s.len() {
            assert(s[i] == x);
        }
    }
    if s.contains(x) {
        let i = choose|i: int| 0 <= i < s.len() && s[i] == x;
        assert(s.push(t)[i] == x);
    }
    if x == t {
        assert(s.push(t)[s.len() as int] == x);
    }
}

/// Membership after inserting one class.
proof fn lemma_insert_class_contains(cs: Seq<Seq<char>>, t: Seq<char>, x: Seq<char>)
    ensures
        insert_class(cs, t).contains(x) <==> (cs.contains(x) || x == t),
{
    if !cs.contains(t) {
        lemma_contains_push(cs, t, x);
    }
}

/// Membership after inserting a list of classes: anything already
/// present, or any inserted token.
proof fn lemma_insert_classes_contains(cs: Seq<Seq<char>>, ts: Seq<Seq<char>>, x: Seq<char>)
    ensures
        insert_classes(cs, ts).contains(x) <==> (cs.contains(x) || ts.contains(x)),
    decreases ts.len(),
{
    if ts.len() == 0 {
        assert(!ts.contains(x));
    } else {
        lemma_insert_classes_contains(cs, ts.drop_last(), x);
        lemma_insert_class_contains(insert_classes(cs, ts.drop_last()), ts.last(), x);
        assert(ts =~= ts.drop_last().push(ts.last()));
        lemma_contains_push(ts.drop_last(), ts.last(), x);
    }
}

/// Inserting classes that are all present already changes nothing.
proof fn lemma_insert_classes_of_present(cs: Seq<Seq<char>>, ts: Seq<Seq<char>>)
    requires
        forall|i: int| 0 <= i < ts.len() ==> cs.contains(#[trigger] ts[i]),
    ensures
        insert_classes(cs, ts) == cs,
    decreases ts.len(),
{
    if ts.len() > 0 {
        lemma_insert_classes_of_present(cs, ts.drop_last());
        assert(cs.contains(ts.last()));
    }
}

/// Class deduplication, part one: adding the same class string twice is
/// the same as adding it once — the class set, and hence the rendering,
/// is unchanged.
pub proof fn lemma_add_class_idempotent(v: NodeView, s: Seq<char>)
    ensures
        add_class_spec(add_class_spec(v, s), s) == add_class_spec(v, s),
{
    let cs = insert_classes(v.classes, split_ws(s));
    assert forall|i: int| 0 <= i < split_ws(s).len() implies cs.contains(
        #[trigger] split_ws(s)[i],
    ) by {
        assert(split_ws(s).contains(split_ws(s)[i]));
        lemma_insert_classes_contains(v.classes, split_ws(s), split_ws(s)[i]);
    }
    lemma_insert_classes_of_present(cs, split_ws(s));
    assert(add_class_spec(add_class_spec(v, s), s) =~= add_class_spec(v, s));
}

/// Class deduplication, part two: adding a class string keeps the class
/// list free of duplicates, and afterwards the list holds exactly the
/// old classes and the string's whitespace-separated tokens.
pub proof fn lemma_add_class_dedup(v: NodeView, s: Seq<char>)
    requires
        v.classes.no_duplicates(),
    ensures
        add_class_spec(v, s).classes.no_duplicates(),
        forall|t: Seq<char>|
            add_class_spec(v, s).classes.contains(t) <==> (v.classes.contains(t) || split_ws(
                s,
            ).contains(t)),
{
    lemma_insert_classes_nodup(v.classes, split_ws(s));
    assert forall|t: Seq<char>|
        add_class_spec(v, s).classes.contains(t) <==> (v.classes.contains(t) || split_ws(
            s,
        ).contains(t)) by {
        lemma_insert_classes_contains(v.classes, split_ws(s), t);
    }
}

/// Inserting classes preserves freedom from duplicates.
proof fn lemma_insert_classes_nodup(cs: Seq<Seq<char>>, ts: Seq<Seq<char>>)
    requires
        cs.no_duplicates(),
    ensures
        insert_classes(cs, ts).no_duplicates(),
    decreases ts.len(),
{
    if ts.len() > 0 {
        lemma_insert_classes_nodup(cs, ts.drop_last());
        let inner = insert_classes(cs, ts.drop_last());
        let t = ts.last();
        if !inner.contains(t) {
            assert forall|i: int, j: int|
                0 <= i < inner.push(t).len() && 0 <= j < inner.push(t).len() && i != j implies
                inner.push(t)[i] != inner.push(t)[j] by {
                if i < inner.len() && j < inner.len() {
                    assert(inner[i] == inner.push(t)[i]);
                    assert(inner[j] == inner.push(t)[j]);
                } else if i < inner.len() {
                    assert(inner.contains(inner[i]));
                } else if j < inner.len() {
                    assert(inner.contains(inner[j]));
                }
            }
        }
    }
}

} // verus!
