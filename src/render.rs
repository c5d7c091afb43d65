use vstd::prelude::*;
use crate::json::{pretty_json, pretty_of, Json, JsonV};

verus! {

/// The display form of a projected value.
#[derive(Debug, PartialEq)]
pub enum Rendered {
    /// Nothing is shown.
    Suppressed,
    /// A string, shown without quotes.
    PlainString(String),
    /// Any other value, shown as indented JSON text.
    StructuredText(String),
}

/// The model of a display form.
pub enum RenderedV {
    Suppressed,
    PlainString(Seq<char>),
    StructuredText(Seq<char>),
}

impl View for Rendered {
    type V = RenderedV;

    open spec fn view(&self) -> RenderedV {
        match self {
            Rendered::Suppressed => RenderedV::Suppressed,
            Rendered::PlainString(s) => RenderedV::PlainString(s@),
            Rendered::StructuredText(s) => RenderedV::StructuredText(s@),
        }
    }
}

/// How a projected value is shown: `Null` not at all, a string bare, anything else indented.
pub open spec fn rendered(v: JsonV) -> RenderedV {
    match v {
        JsonV::Null => RenderedV::Suppressed,
        JsonV::Str(s) => RenderedV::PlainString(s),
        _ => RenderedV::StructuredText(pretty_of(v)),
    }
}

/// The display form of a projected value.
pub fn render(projected: &Json) -> (r: Rendered)
    ensures
        r@ == rendered(projected@),
{
    match projected {
        Json::Null => Rendered::Suppressed,
        Json::Str(s) => Rendered::PlainString(s.clone()),
        _ => Rendered::StructuredText(pretty_json(projected)),
    }
}

} // verus!
