use vstd::prelude::*;
use crate::json::{compact_json, compact_of, pair_texts, Json, JsonV};
use crate::path::{resolve, resolved, split_dots, split_path};

verus! {

/// The text a value is compared by: a string's own characters, a number's
/// canonical text, `true`, `false` and `null` for the literals, and the
/// compact JSON text of an array or an object.
pub open spec fn text_of(v: JsonV) -> Seq<char> {
    match v {
        JsonV::Str(s) => s,
        JsonV::Number(t) => t,
        JsonV::Bool(b) => if b {
            seq!['t', 'r', 'u', 'e']
        } else {
            seq!['f', 'a', 'l', 's', 'e']
        },
        JsonV::Null => seq!['n', 'u', 'l', 'l'],
        _ => compact_of(v),
    }
}

/// A record meets one predicate when its path resolves to a value whose text is the expected one.
pub open spec fn satisfies(v: JsonV, pred: (Seq<char>, Seq<char>)) -> bool {
    match resolved(v, split_dots(pred.0)) {
        Some(x) => text_of(x) == pred.1,
        None => false,
    }
}

/// A record passes a predicate list when it meets every predicate in it.
pub open spec fn passes_all(v: JsonV, preds: Seq<(Seq<char>, Seq<char>)>) -> bool {
    forall|i: int| 0 <= i < preds.len() ==> satisfies(v, #[trigger] preds[i])
}

/// The text a value is compared by in a filter.
pub fn canonical_text(v: &Json) -> (r: String)
    ensures
        r@ == text_of(v@),
{
    match v {
        Json::Str(s) => s.clone(),
        Json::Number(t) => t.clone(),
        Json::Bool(b) => {
            if *b {
                proof {
                    reveal_strlit("true");
                }
                "true".to_owned()
            } else {
                proof {
                    reveal_strlit("false");
                }
                "false".to_owned()
            }
        },
        Json::Null => {
            proof {
                reveal_strlit("null");
            }
            "null".to_owned()
        },
        _ => compact_json(v),
    }
}

/// Whether `record` meets every `(dotted path, expected text)` predicate;
/// stops at the first that it does not meet.
pub fn passes(record: &Json, predicates: &Vec<(String, String)>) -> (r: bool)
    ensures
        r == passes_all(record@, pair_texts(predicates@)),
{
    let ghost ps = pair_texts(predicates@);
    let mut i: usize = 0;
    while i < predicates.len()
        invariant
            i <= predicates@.len(),
            ps == pair_texts(predicates@),
            forall|k: int| 0 <= k < i ==> satisfies(record@, #[trigger] ps[k]),
        decreases predicates@.len() - i,
    {
        let path = split_path(predicates[i].0.as_str());
        let found = resolve(record, &path);
        assert(ps[i as int] == (predicates@[i as int].0@, predicates@[i as int].1@));
        match found {
            Some(x) => {
                let text = canonical_text(x);
                if text != predicates[i].1 {
                    return false;
                }
            },
            None => {
                return false;
            },
        }
        i = i + 1;
    }
    true
}

/// With no predicates every record passes.
pub proof fn lemma_no_predicates_pass(v: JsonV)
    ensures
        passes_all(v, Seq::empty()),
{
}

/// A predicate whose path leads nowhere fails the record, whatever the other predicates say.
pub proof fn lemma_unresolved_path_fails(v: JsonV, preds: Seq<(Seq<char>, Seq<char>)>, i: int)
    requires
        0 <= i < preds.len(),
        resolved(v, split_dots(preds[i].0)) is None,
    ensures
        !passes_all(v, preds),
{
    assert(!satisfies(v, preds[i]));
}

} // verus!
