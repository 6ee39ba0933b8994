//! The input element.

use vstd::prelude::*;

use crate::global_attributes::{pair_of, AttrPair, AttrView, Attribute};
use crate::tags::Tag;

verus! {

/// The `type` attribute of an input.
#[derive(Debug, Clone)]
enum InputType {
    Hidden,
    Submit,
    Text,
    Radio,
}

impl Attribute for InputType {
    closed spec fn name_spec(&self) -> Seq<char> {
        "type"@
    }

    closed spec fn value_spec(&self) -> Seq<char> {
        match self {
            InputType::Hidden => "hidden"@,
            InputType::Submit => "submit"@,
            InputType::Text => "text"@,
            InputType::Radio => "radio"@,
        }
    }

    fn name(&self) -> &'static str {
        "type"
    }

    fn value(&self) -> String {
        match self {
            InputType::Hidden => "hidden".to_owned(),
            InputType::Submit => "submit".to_owned(),
            InputType::Text => "text".to_owned(),
            InputType::Radio => "radio".to_owned(),
        }
    }
}

/// The `name` attribute of an input.
#[derive(Debug, Clone)]
struct Name {
    value: String,
}

impl Attribute for Name {
    closed spec fn name_spec(&self) -> Seq<char> {
        "name"@
    }

    closed spec fn value_spec(&self) -> Seq<char> {
        self.value@
    }

    fn name(&self) -> &'static str {
        "name"
    }

    fn value(&self) -> String {
        self.value.clone()
    }
}

/// The `value` attribute of an input.
#[derive(Debug, Clone)]
struct Value {
    value: String,
}

impl Attribute for Value {
    closed spec fn name_spec(&self) -> Seq<char> {
        "value"@
    }

    closed spec fn value_spec(&self) -> Seq<char> {
        self.value@
    }

    fn name(&self) -> &'static str {
        "value"
    }

    fn value(&self) -> String {
        self.value.clone()
    }
}

/// The boolean `checked` attribute of an input.
#[derive(Debug, Clone)]
struct Checked;

impl Attribute for Checked {
    closed spec fn name_spec(&self) -> Seq<char> {
        "checked"@
    }

    closed spec fn value_spec(&self) -> Seq<char> {
        ""@
    }

    fn name(&self) -> &'static str {
        "checked"
    }

    fn value(&self) -> String {
        "".to_owned()
    }
}

/// The tag-specific attributes of an input: its type, its control name
/// when set, the `checked` marker when set, then its value.
pub open spec fn input_attrs(
    type_value: Seq<char>,
    name_value: Option<Seq<char>>,
    checked: bool,
    value_value: Seq<char>,
) -> Option<Seq<AttrView>> {
    let with_type = seq![AttrView { name: "type"@, value: type_value }];
    let with_name = match name_value {
        Option::Some(n) => with_type + seq![AttrView { name: "name"@, value: n }],
        Option::None => with_type,
    };
    let with_checked: Seq<AttrView> = if checked {
        with_name + seq![AttrView { name: "checked"@, value: ""@ }]
    } else {
        with_name
    };
    Some(with_checked + seq![AttrView { name: "value"@, value: value_value }])
}

/// A form input: hidden, submit, text, or radio.
#[derive(Debug, Clone)]
pub struct Input {
    type_: InputType,
    name: Option<Name>,
    checked: Option<Checked>,
    value: Value,
}

impl Input {
    /// The value of the input's `type` attribute.
    pub closed spec fn type_value_spec(&self) -> Seq<char> {
        self.type_.value_spec()
    }

    /// The input's control name, when set.
    pub closed spec fn name_value_spec(&self) -> Option<Seq<char>> {
        match self.name {
            Option::Some(n) => Some(n.value_spec()),
            Option::None => None,
        }
    }

    /// Whether the `checked` attribute is set.
    pub closed spec fn checked_spec(&self) -> bool {
        self.checked is Some
    }

    /// The value of the input's `value` attribute.
    pub closed spec fn value_value_spec(&self) -> Seq<char> {
        self.value.value_spec()
    }

    /// A text input with the given control name and initial value.
    pub fn text(name: &str, value: &str) -> (r: Self)
        ensures
            r.type_value_spec() == "text"@,
            r.name_value_spec() == Some(name@),
            !r.checked_spec(),
            r.value_value_spec() == value@,
    {
        Input {
            type_: InputType::Text,
            name: Some(Name { value: name.to_owned() }),
            value: Value { value: value.to_owned() },
            checked: None,
        }
    }

    /// A hidden input with the given control name and value.
    pub fn hidden(name: &str, value: &str) -> (r: Self)
        ensures
            r.type_value_spec() == "hidden"@,
            r.name_value_spec() == Some(name@),
            !r.checked_spec(),
            r.value_value_spec() == value@,
    {
        Input {
            type_: InputType::Hidden,
            name: Some(Name { value: name.to_owned() }),
            value: Value { value: value.to_owned() },
            checked: None,
        }
    }

    /// A submit input with the given label.
    pub fn submit(value: &str) -> (r: Self)
        ensures
            r.type_value_spec() == "submit"@,
            r.name_value_spec() is None,
            !r.checked_spec(),
            r.value_value_spec() == value@,
    {
        Input {
            type_: InputType::Submit,
            name: None,
            value: Value { value: value.to_owned() },
            checked: None,
        }
    }

    /// A radio input carrying the given value, in the group with the
    /// given name.
    pub fn radio(value: &str, name: &str) -> (r: Self)
        ensures
            r.type_value_spec() == "radio"@,
            r.name_value_spec() == Some(name@),
            !r.checked_spec(),
            r.value_value_spec() == value@,
    {
        Input {
            type_: InputType::Radio,
            name: Some(Name { value: name.to_owned() }),
            value: Value { value: value.to_owned() },
            checked: None,
        }
    }

    /// Set the `checked` attribute.
    pub fn set_checked(&mut self)
        ensures
            final(self).checked_spec(),
            final(self).type_value_spec() == old(self).type_value_spec(),
            final(self).name_value_spec() == old(self).name_value_spec(),
            final(self).value_value_spec() == old(self).value_value_spec(),
    {
        self.checked = Some(Checked);
    }
}

impl Tag for Input {
    open spec fn name_spec(&self) -> Seq<char> {
        "input"@
    }

    open spec fn open_spec(&self) -> bool {
        true
    }

    open spec fn close_spec(&self) -> bool {
        false
    }

    open spec fn attrs_spec(&self) -> Option<Seq<AttrView>> {
        input_attrs(
            self.type_value_spec(),
            self.name_value_spec(),
            self.checked_spec(),
            self.value_value_spec(),
        )
    }

    fn name(&self) -> &'static str {
        "input"
    }

    fn open_tag(&self) -> bool {
        true
    }

    fn close_tag(&self) -> bool {
        false
    }

    fn attributes(&self) -> Option<Vec<AttrPair>> {
        let mut v: Vec<AttrPair> = vec![pair_of(&self.type_)];
        if let Some(name) = &self.name {
            v.push(pair_of(name));
        }
        if let Some(checked) = &self.checked {
            v.push(pair_of(checked));
        }
        v.push(pair_of(&self.value));
        proof {
            assert(crate::global_attributes::pairs_view(v@) =~= self.attrs_spec()->Some_0);
        }
        Some(v)
    }
}

} // verus!
