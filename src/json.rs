use vstd::prelude::*;

verus! {

broadcast use vstd::std_specs::vec::group_vec_axioms;

/// A JSON value held as plain data. A number is held as its canonical text
/// (`1`, `-3`, `1.5`); an object as its entries, in key order when parsed.
#[derive(Debug, PartialEq)]
pub enum Json {
    Null,
    Bool(bool),
    Number(String),
    Str(String),
    Array(Vec<Json>),
    Object(Vec<(String, Json)>),
}

/// The mathematical model of a JSON value.
pub enum JsonV {
    Null,
    Bool(bool),
    Number(Seq<char>),
    Str(Seq<char>),
    Array(Seq<JsonV>),
    /// Keys, and the values in the same order.
    Object(Seq<Seq<char>>, Seq<JsonV>),
}

impl View for Json {
    type V = JsonV;

    open spec fn view(&self) -> JsonV
        decreases self,
    {
        match self {
            Json::Null => JsonV::Null,
            Json::Bool(b) => JsonV::Bool(*b),
            Json::Number(t) => JsonV::Number(t@),
            Json::Str(s) => JsonV::Str(s@),
            Json::Array(a) => JsonV::Array(
                Seq::new(a@.len(), |i: int| if 0 <= i < a@.len() { a@[i].view() } else { JsonV::Null }),
            ),
            Json::Object(m) => JsonV::Object(
                Seq::new(m@.len(), |i: int| m@[i].0@),
                Seq::new(
                    m@.len(),
                    |i: int| if 0 <= i < m@.len() { m@[i].1.view() } else { JsonV::Null },
                ),
            ),
        }
    }
}

/// An outside JSON tree, carried through the converters below and never read by verified code.
#[verifier::external_type_specification]
#[verifier::external_body]
pub struct ExValue(serde_json::Value);

/// What `serde_json::from_str` yields for a text, in the model: `None` when it is no JSON.
pub uninterp spec fn parsed_of(text: Seq<char>) -> Option<JsonV>;

/// What `serde_json::to_string_pretty` writes for a value.
pub uninterp spec fn pretty_of(v: JsonV) -> Seq<char>;

/// What `serde_json::to_string` writes for a value.
pub uninterp spec fn compact_of(v: JsonV) -> Seq<char>;

/// The texts of a list of strings.
pub open spec fn texts(s: Seq<String>) -> Seq<Seq<char>> {
    s.map_values(|x: String| x@)
}

/// The texts of a list of string pairs.
pub open spec fn pair_texts(p: Seq<(String, String)>) -> Seq<(Seq<char>, Seq<char>)> {
    p.map_values(|e: (String, String)| (e.0@, e.1@))
}

/// The model of an optional value.
pub open spec fn opt_view(r: Option<Json>) -> Option<JsonV> {
    match r {
        Some(j) => Some(j@),
        None => None,
    }
}

/// Moves a parsed outside tree into the library's own representation, one node for one.
#[verifier::external_body]
fn json_from_value(v: serde_json::Value) -> Json {
    match v {
        serde_json::Value::Null => Json::Null,
        serde_json::Value::Bool(b) => Json::Bool(b),
        serde_json::Value::Number(n) => Json::Number(n.to_string()),
        serde_json::Value::String(s) => Json::Str(s),
        serde_json::Value::Array(a) => Json::Array(a.into_iter().map(json_from_value).collect()),
        serde_json::Value::Object(m) => Json::Object(
            m.into_iter().map(|(k, x)| (k, json_from_value(x))).collect(),
        ),
    }
}

/// Builds the outside tree for a value, one node for one; number text that
/// `serde_json::Number` refuses to read stays text.
#[verifier::external_body]
fn value_from_json(j: &Json) -> serde_json::Value {
    match j {
        Json::Null => serde_json::Value::Null,
        Json::Bool(b) => serde_json::Value::Bool(*b),
        Json::Number(t) => match t.parse::<serde_json::Number>() {
            Ok(n) => serde_json::Value::Number(n),
            Err(_) => serde_json::Value::String(t.clone()),
        },
        Json::Str(s) => serde_json::Value::String(s.clone()),
        Json::Array(a) => serde_json::Value::Array(a.iter().map(value_from_json).collect()),
        Json::Object(m) => serde_json::Value::Object(
            m.iter().map(|(k, x)| (k.clone(), value_from_json(x))).collect(),
        ),
    }
}

/// Relies on `serde_json::from_str`: whether a text is JSON, and which value it
/// holds, depends on the text alone.
#[verifier::external_body]
pub(crate) fn serde_parse(text: &str) -> (r: Option<Json>)
    ensures
        opt_view(r) == parsed_of(text@),
{
    serde_json::from_str::<serde_json::Value>(text).ok().map(json_from_value)
}

/// Relies on `serde_json::to_string_pretty`: the indented text of a value.
/// A `Value` always serialises, so the error arm is never taken.
#[verifier::external_body]
pub(crate) fn pretty_json(j: &Json) -> (r: String)
    ensures
        r@ == pretty_of(j@),
{
    serde_json::to_string_pretty(&value_from_json(j)).unwrap_or_default()
}

/// Relies on `serde_json::to_string`: the compact text of a value.
/// A `Value` always serialises, so the error arm is never taken.
#[verifier::external_body]
pub(crate) fn compact_json(j: &Json) -> (r: String)
    ensures
        r@ == compact_of(j@),
{
    serde_json::to_string(&value_from_json(j)).unwrap_or_default()
}

impl Json {
    /// The JSON value that `text` holds, or `None` where it is no JSON.
    pub fn parse(text: &str) -> (r: Option<Json>)
        ensures
            opt_view(r) == parsed_of(text@),
    {
        serde_parse(text)
    }

    /// A copy of the whole tree.
    #[verifier::loop_isolation(false)]
    pub fn duplicate(&self) -> (r: Json)
        ensures
            r@ == self@,
        decreases self,
    {
        match self {
            Json::Null => Json::Null,
            Json::Bool(b) => Json::Bool(*b),
            Json::Number(t) => Json::Number(t.clone()),
            Json::Str(s) => Json::Str(s.clone()),
            Json::Array(a) => {
                let mut out: Vec<Json> = Vec::new();
                let mut i: usize = 0;
                while i < a.len()
                    invariant
                        *self == Json::Array(*a),
                        i <= a@.len(),
                        out@.len() == i,
                        forall|k: int| 0 <= k < i ==> #[trigger] out@[k]@ == a@[k]@,
                    decreases a@.len() - i,
                {
                    proof {
                        assert(decreases_to!(a => a@[i as int]));

                    }
                    let c = a[i].duplicate();
                    out.push(c);
                    i = i + 1;
                }
                let r = Json::Array(out);
                assert(r@->Array_0 =~= self@->Array_0) by {
                    assert forall|k: int| 0 <= k < a@.len() implies r@->Array_0[k]
                        == self@->Array_0[k] by {
                        assert(out@[k]@ == a@[k]@);
                    }
                }
                r
            },
            Json::Object(m) => {
                let mut out: Vec<(String, Json)> = Vec::new();
                let mut i: usize = 0;
                while i < m.len()
                    invariant
                        *self == Json::Object(*m),
                        i <= m@.len(),
                        out@.len() == i,
                        forall|k: int|
                            0 <= k < i ==> (#[trigger] out@[k]).0@ == m@[k].0@ && out@[k].1@
                                == m@[k].1@,
                    decreases m@.len() - i,
                {
                    proof {
                        assert(decreases_to!(m => m@[i as int]));
                    }
                    let c = m[i].1.duplicate();
                    out.push((m[i].0.clone(), c));
                    i = i + 1;
                }
                let r = Json::Object(out);
                assert(r@->Object_0 =~= self@->Object_0);
                assert(r@->Object_1 =~= self@->Object_1) by {
                    assert forall|k: int| 0 <= k < m@.len() implies r@->Object_1[k]
                        == self@->Object_1[k] by {
                        assert(out@[k].1@ == m@[k].1@);
                    }
                }
                r
            },
        }
    }
}

} // verus!
