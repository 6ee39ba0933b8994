//! The form element.

use vstd::prelude::*;

use crate::global_attributes::{attr_view_of, pair_of, AttrPair, AttrView, Attribute};
use crate::tags::Tag;

verus! {

/// The method used when submitting a form.
#[derive(Debug, Clone)]
pub enum Method {
    Get,
    Post,
}

impl Attribute for Method {
    open spec fn name_spec(&self) -> Seq<char> {
        "method"@
    }

    open spec fn value_spec(&self) -> Seq<char> {
        match self {
            Method::Get => "get"@,
            Method::Post => "post"@,
        }
    }

    fn name(&self) -> &'static str {
        "method"
    }

    fn value(&self) -> String {
        match self {
            Method::Get => "get".to_owned(),
            Method::Post => "post".to_owned(),
        }
    }
}

/// The address which processes the form.
#[derive(Debug, Clone)]
struct Action {
    url: String,
}

impl Attribute for Action {
    closed spec fn name_spec(&self) -> Seq<char> {
        "action"@
    }

    closed spec fn value_spec(&self) -> Seq<char> {
        self.url@
    }

    fn name(&self) -> &'static str {
        "action"
    }

    fn value(&self) -> String {
        self.url.clone()
    }
}

/// A data form, with a submission method and a processing address.
#[derive(Debug, Clone)]
pub struct Form {
    method: Method,
    action: Action,
}

impl Form {
    /// A form submitted with the given method to the given address.
    pub fn new(method: Method, action_url: &str) -> (r: Self)
        ensures
            r.attrs_spec() == Some(
                seq![attr_view_of(method), AttrView { name: "action"@, value: action_url@ }],
            ),
    {
        Form { method, action: Action { url: action_url.to_owned() } }
    }
}

impl Tag for Form {
    open spec fn name_spec(&self) -> Seq<char> {
        "form"@
    }

    open spec fn open_spec(&self) -> bool {
        true
    }

    open spec fn close_spec(&self) -> bool {
        true
    }

    closed spec fn attrs_spec(&self) -> Option<Seq<AttrView>> {
        Some(seq![attr_view_of(self.method), attr_view_of(self.action)])
    }

    fn name(&self) -> &'static str {
        "form"
    }

    fn open_tag(&self) -> bool {
        true
    }

    fn close_tag(&self) -> bool {
        true
    }

    fn attributes(&self) -> Option<Vec<AttrPair>> {
        let v = vec![pair_of(&self.method), pair_of(&self.action)];
        proof {
            assert(crate::global_attributes::pairs_view(v@) =~= self.attrs_spec()->Some_0);
        }
        Some(v)
    }
}

} // verus!
