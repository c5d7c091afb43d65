use vstd::prelude::*;
use crate::json::{texts, Json, JsonV};

verus! {

broadcast use vstd::std_specs::vec::group_vec_axioms;

/// The pieces of a text between its dots, dots themselves dropped; a text
/// without dots is one piece, and the empty text is one empty piece.
pub open spec fn split_dots(s: Seq<char>) -> Seq<Seq<char>>
    decreases s.len(),
{
    if s.len() == 0 {
        seq![Seq::empty()]
    } else {
        let rest = split_dots(s.drop_first());
        if s[0] == '.' {
            seq![Seq::empty()] + rest
        } else {
            rest.update(0, seq![s[0]] + rest[0])
        }
    }
}

/// The first position, at or after `i`, that holds the key `k`; -1 where none does.
pub open spec fn key_from(keys: Seq<Seq<char>>, k: Seq<char>, i: int) -> int
    decreases keys.len() - i,
{
    if i < 0 || i >= keys.len() {
        -1
    } else if keys[i] == k {
        i
    } else {
        key_from(keys, k, i + 1)
    }
}

/// What a path leads to in a value: an object is entered by key, an array
/// hands the whole remaining path to its elements and takes the first that
/// resolves, any other value ends the walk.
pub open spec fn resolved(v: JsonV, p: Seq<Seq<char>>) -> Option<JsonV>
    decreases v, 0int,
{
    if p.len() == 0 {
        Some(v)
    } else {
        match v {
            JsonV::Object(ks, vs) => {
                let j = key_from(ks, p[0], 0);
                if 0 <= j < vs.len() {
                    resolved(vs[j], p.drop_first())
                } else {
                    None
                }
            },
            JsonV::Array(xs) => first_resolved(xs, p, 0),
            _ => None,
        }
    }
}

/// The first element, at or after `i`, through which the path resolves, and what it resolves to.
pub open spec fn first_resolved(xs: Seq<JsonV>, p: Seq<Seq<char>>, i: int) -> Option<JsonV>
    decreases xs, xs.len() - i,
{
    if 0 <= i < xs.len() {
        match resolved(xs[i], p) {
            Some(r) => Some(r),
            None => first_resolved(xs, p, i + 1),
        }
    } else {
        None
    }
}

/// The model of an optional borrowed value.
pub open spec fn ref_view(r: Option<&Json>) -> Option<JsonV> {
    match r {
        Some(j) => Some(j@),
        None => None,
    }
}

/// Relies on `str::split`: the pieces of `dotted` between its `.` characters.
#[verifier::external_body]
pub(crate) fn split_on_dots(dotted: &str) -> (r: Vec<String>)
    ensures
        texts(r@) == split_dots(dotted@),
{
    dotted.split('.').map(|p| p.to_string()).collect()
}

/// The segments of a dotted path: `"meta.labels.app"` gives `meta`, `labels`, `app`.
pub fn split_path(dotted: &str) -> (r: Vec<String>)
    ensures
        texts(r@) == split_dots(dotted@),
{
    split_on_dots(dotted)
}

/// What the segments of `path` from position `from` on lead to in `v`.
#[verifier::loop_isolation(false)]
fn resolve_from<'a>(v: &'a Json, path: &Vec<String>, from: usize) -> (r: Option<&'a Json>)
    requires
        from <= path@.len(),
    ensures
        ref_view(r) == resolved(v@, texts(path@).skip(from as int)),
    decreases v,
{
    let ghost p = texts(path@).skip(from as int);
    if from == path.len() {
        return Some(v);
    }
    match v {
        Json::Object(m) => {
            let seg = &path[from];
            let ghost ks = Seq::new(m@.len(), |i: int| m@[i].0@);
            let mut i: usize = 0;
            while i < m.len()
                invariant
                    i <= m@.len(),
                    key_from(ks, p[0], 0) == key_from(ks, p[0], i as int),
                decreases m@.len() - i,
            {
                if m[i].0 == *seg {
                    assert(p.drop_first() =~= texts(path@).skip(from + 1));
                    proof {
                        assert(decreases_to!(m => m@[i as int]));
                    }
                    return resolve_from(&m[i].1, path, from + 1);
                }
                i = i + 1;
            }
            None
        },
        Json::Array(a) => {
            let ghost xs = v@->Array_0;
            let mut i: usize = 0;
            while i < a.len()
                invariant
                    i <= a@.len(),
                    first_resolved(xs, p, 0) == first_resolved(xs, p, i as int),
                decreases a@.len() - i,
            {
                proof {
                    assert(decreases_to!(a => a@[i as int]));
                }
                let r = resolve_from(&a[i], path, from);
                if r.is_some() {
                    return r;
                }
                i = i + 1;
            }
            None
        },
        _ => None,
    }
}

/// What `path` leads to in `v`, or `None` where it leads nowhere.
pub fn resolve<'a>(v: &'a Json, path: &Vec<String>) -> (r: Option<&'a Json>)
    ensures
        ref_view(r) == resolved(v@, texts(path@)),
{
    assert(texts(path@).skip(0) =~= texts(path@));
    resolve_from(v, path, 0)
}

/// An empty path leads to the value itself; what a path leads to is a
/// function of the value and the path alone.
pub proof fn lemma_resolve_empty_path(v: JsonV, p: Seq<Seq<char>>, w: JsonV, q: Seq<Seq<char>>)
    ensures
        resolved(v, Seq::empty()) == Some(v),
        (v == w && p == q) ==> resolved(v, p) == resolved(w, q),
{
}

} // verus!
