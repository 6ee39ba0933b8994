use vstd::prelude::*;

use crate::global_attributes::Attribute;

verus! {

/// The `lang` global attribute.
#[derive(Debug, Clone)]
pub enum Lang {
    English,
    French,
    Spanish,
}

impl Attribute for Lang {
    open spec fn name_spec(&self) -> Seq<char> {
        "lang"@
    }

    open spec fn value_spec(&self) -> Seq<char> {
        match self {
            Lang::English => "en"@,
            Lang::French => "fr"@,
            Lang::Spanish => "es"@,
        }
    }

    fn name(&self) -> &'static str {
        "lang"
    }

    fn value(&self) -> String {
        match self {
            Lang::English => "en".to_owned(),
            Lang::French => "fr".to_owned(),
            Lang::Spanish => "es".to_owned(),
        }
    }
}

} // verus!
