use vstd::prelude::*;
use crate::json::{texts, Json, JsonV};
use crate::path::{resolve, resolved, split_dots, split_path};

verus! {

broadcast use vstd::std_specs::vec::group_vec_axioms;

/// What part of a record is shown.
#[derive(Debug, PartialEq)]
pub enum Projection {
    /// The whole record.
    Full,
    /// The one value a dotted path leads to.
    Selector(String),
    /// An object of the values that these dotted paths lead to, keyed by the paths.
    KeyList(Vec<String>),
}

/// The keys and values that a key list picks from a record: each path, in
/// order, that resolves and is not already a key, with what it resolves to.
pub open spec fn picked(v: JsonV, keys: Seq<Seq<char>>) -> (Seq<Seq<char>>, Seq<JsonV>)
    decreases keys.len(),
{
    if keys.len() == 0 {
        (Seq::empty(), Seq::empty())
    } else {
        let prev = picked(v, keys.drop_last());
        let k = keys.last();
        match resolved(v, split_dots(k)) {
            Some(x) => if prev.0.contains(k) {
                prev
            } else {
                (prev.0.push(k), prev.1.push(x))
            },
            None => prev,
        }
    }
}

/// What a projection shows of a record; `Null` stands for nothing.
pub open spec fn projected(v: JsonV, p: Projection) -> JsonV {
    match p {
        Projection::Full => v,
        Projection::Selector(s) => match resolved(v, split_dots(s@)) {
            Some(x) => x,
            None => JsonV::Null,
        },
        Projection::KeyList(ks) => {
            let e = picked(v, texts(ks@));
            if e.0.len() == 0 {
                JsonV::Null
            } else {
                JsonV::Object(e.0, e.1)
            }
        },
    }
}

/// Whether one of the entries has the key `k`.
fn has_key(out: &Vec<(String, Json)>, k: &String) -> (r: bool)
    ensures
        r == Seq::new(out@.len(), |i: int| out@[i].0@).contains(k@),
{
    let ghost ks = Seq::new(out@.len(), |i: int| out@[i].0@);
    let mut i: usize = 0;
    while i < out.len()
        invariant
            i <= out@.len(),
            ks == Seq::new(out@.len(), |i: int| out@[i].0@),
            forall|j: int| 0 <= j < i ==> ks[j] != k@,
        decreases out@.len() - i,
    {
        if out[i].0 == *k {
            assert(ks[i as int] == k@);
            return true;
        }
        i = i + 1;
    }
    false
}

/// The object of the values that `keys` lead to in `record`, keyed by the paths as written.
#[verifier::loop_isolation(false)]
fn pick_keys(record: &Json, keys: &Vec<String>) -> (r: Json)
    ensures
        r@ == projected(record@, Projection::KeyList(*keys)),
{
    let ghost ts = texts(keys@);
    let mut out: Vec<(String, Json)> = Vec::new();
    let mut i: usize = 0;
    while i < keys.len()
        invariant
            i <= keys@.len(),
            out@.len() == picked(record@, ts.take(i as int)).0.len(),
            out@.len() == picked(record@, ts.take(i as int)).1.len(),
            forall|k: int|
                0 <= k < out@.len() ==> (#[trigger] out@[k]).0@ == picked(
                    record@,
                    ts.take(i as int),
                ).0[k] && out@[k].1@ == picked(record@, ts.take(i as int)).1[k],
        decreases keys@.len() - i,
    {
        let ghost before = out@;
        let ghost prev = picked(record@, ts.take(i as int));
        assert(ts.take(i + 1).drop_last() =~= ts.take(i as int));
        assert(ts.take(i + 1).last() == keys@[i as int]@);
        let path = split_path(keys[i].as_str());
        let found = resolve(record, &path);
        assert(Seq::new(out@.len(), |j: int| out@[j].0@) =~= prev.0);
        match found {
            Some(x) => {
                if !has_key(&out, &keys[i]) {
                    let c = x.duplicate();
                    out.push((keys[i].clone(), c));
                    assert forall|k: int| 0 <= k < out@.len() implies (#[trigger] out@[k]).0@
                        == picked(record@, ts.take(i + 1)).0[k] && out@[k].1@ == picked(
                        record@,
                        ts.take(i + 1),
                    ).1[k] by {
                        if k < before.len() {
                            assert(out@[k] == before[k]);
                        }
                    }
                }
            },
            None => {},
        }
        i = i + 1;
    }
    assert(ts.take(keys@.len() as int) =~= ts);
    let ghost e = picked(record@, ts);
    if out.len() == 0 {
        Json::Null
    } else {
        let r = Json::Object(out);
        assert(r@->Object_0 =~= e.0);
        assert(r@->Object_1 =~= e.1) by {
            assert forall|k: int| 0 <= k < e.1.len() implies r@->Object_1[k] == e.1[k] by {
                assert(out@[k].1@ == e.1[k]);
            }
        }
        r
    }
}

/// What `projection` shows of `record`; `Json::Null` stands for nothing.
pub fn project(record: &Json, projection: &Projection) -> (r: Json)
    ensures
        r@ == projected(record@, *projection),
{
    match projection {
        Projection::Full => record.duplicate(),
        Projection::Selector(s) => {
            let path = split_path(s.as_str());
            match resolve(record, &path) {
                Some(x) => x.duplicate(),
                None => Json::Null,
            }
        },
        Projection::KeyList(ks) => pick_keys(record, ks),
    }
}

/// The whole record is shown unchanged by a full projection.
pub proof fn lemma_full_projection_keeps_record(v: JsonV)
    requires
        v != JsonV::Null,
    ensures
        projected(v, Projection::Full) == v,
{
}

/// An empty key list shows nothing.
pub proof fn lemma_empty_key_list_shows_nothing(v: JsonV, keys: Vec<String>)
    requires
        keys@.len() == 0,
    ensures
        projected(v, Projection::KeyList(keys)) == JsonV::Null,
{
    assert(texts(keys@).len() == 0);
}

} // verus!
