//! A generic JSON value tree, the input of every validator in this crate.
//!
//! The crate never tokenizes raw bytes: a caller parses a document with an
//! ordinary JSON parser and converts the result into this type.  An object is
//! kept as its list of bindings in document order; a lookup takes the first
//! binding with the requested key.

use vstd::prelude::*;

verus! {

pub enum Json {
    Null,
    Boolean(bool),
    U64(u64),
    I64(i64),
    String(String),
    Array(Vec<Json>),
    Object(Vec<(String, Json)>),
}

/// Structural equality of two JSON documents: the same shape, with strings
/// compared by their characters.  A validator that stores a subtree verbatim
/// promises a copy equal in this sense.
pub open spec fn json_eq(a: Json, b: Json) -> bool
    decreases a,
{
    match (a, b) {
        (Json::Null, Json::Null) => true,
        (Json::Boolean(x), Json::Boolean(y)) => x == y,
        (Json::U64(x), Json::U64(y)) => x == y,
        (Json::I64(x), Json::I64(y)) => x == y,
        (Json::String(x), Json::String(y)) => x@ == y@,
        (Json::Array(xs), Json::Array(ys)) => json_seq_eq(xs@, ys@),
        (Json::Object(xf), Json::Object(yf)) => json_fields_eq(xf@, yf@),
        _ => false,
    }
}

pub open spec fn json_seq_eq(xs: Seq<Json>, ys: Seq<Json>) -> bool
    decreases xs,
{
    xs.len() == ys.len() && forall|i: int| 0 <= i < xs.len() ==> json_eq(#[trigger] xs[i], ys[i])
}

pub open spec fn json_fields_eq(xf: Seq<(String, Json)>, yf: Seq<(String, Json)>) -> bool
    decreases xf,
{
    xf.len() == yf.len() && forall|i: int|
        0 <= i < xf.len() ==> (#[trigger] xf[i]).0@ == yf[i].0@ && json_eq(xf[i].1, yf[i].1)
}

impl Clone for Json {
    /// A deep copy, equal to the original as a document.
    #[verifier::loop_isolation(false)]
    fn clone(&self) -> (res: Json)
        ensures
            json_eq(res, *self),
        decreases self,
    {
        match self {
            Json::Null => Json::Null,
            Json::Boolean(b) => Json::Boolean(*b),
            Json::U64(n) => Json::U64(*n),
            Json::I64(n) => Json::I64(*n),
            Json::String(s) => Json::String(s.clone()),
            Json::Array(elems) => {
                let mut out: Vec<Json> = Vec::new();
                let mut i: usize = 0;
                while i < elems.len()
                    invariant
                        0 <= i <= elems@.len(),
                        out@.len() == i as int,
                        forall|k: int|
                            0 <= k < i as int ==> json_eq(#[trigger] out@[k], elems@[k]),
                    decreases elems@.len() - i as int,
                {
                    let ghost prev = out@;
                    out.push(elems[i].clone());
                    proof {
                        assert(forall|k: int|
                            0 <= k < prev.len() ==> #[trigger] out@[k] == prev[k]);
                    }
                    i = i + 1;
                }
                assert(json_seq_eq(out@, elems@));
                Json::Array(out)
            },
            Json::Object(fields) => {
                let mut out: Vec<(String, Json)> = Vec::new();
                let mut i: usize = 0;
                while i < fields.len()
                    invariant
                        0 <= i <= fields@.len(),
                        out@.len() == i as int,
                        forall|k: int|
                            0 <= k < i as int ==> (#[trigger] out@[k]).0@ == fields@[k].0@
                                && json_eq(out@[k].1, fields@[k].1),
                    decreases fields@.len() - i as int,
                {
                    let ghost prev = out@;
                    let pair = &fields[i];
                    out.push((pair.0.clone(), pair.1.clone()));
                    proof {
                        assert(forall|k: int|
                            0 <= k < prev.len() ==> #[trigger] out@[k] == prev[k]);
                    }
                    i = i + 1;
                }
                assert(json_fields_eq(out@, fields@));
                Json::Object(out)
            },
        }
    }
}

/// The value bound to `key` in an object's binding list: the first binding
/// with that key, or `None`.
pub open spec fn spec_lookup(fields: Seq<(String, Json)>, key: Seq<char>) -> Option<Json>
    decreases fields.len(),
{
    if fields.len() <= 0 {
        None
    } else if fields[0].0@ == key {
        Some(fields[0].1)
    } else {
        spec_lookup(fields.drop_first(), key)
    }
}

proof fn lemma_spec_lookup_step(fields: Seq<(String, Json)>, key: Seq<char>, i: int)
    requires
        0 <= i < fields.len(),
        fields[i].0@ != key,
    ensures
        spec_lookup(fields.skip(i), key) == spec_lookup(fields.skip(i + 1), key),
{
    assert(fields.skip(i).drop_first() =~= fields.skip(i + 1));
}

pub fn lookup<'a>(fields: &'a Vec<(String, Json)>, key: &String) -> (r: Option<&'a Json>)
    ensures
        match r {
            Some(j) => spec_lookup(fields@, key@) == Some(*j),
            None => spec_lookup(fields@, key@) is None,
        },
{
    let mut i: usize = 0;
    assert(fields@.skip(0) =~= fields@);
    while i < fields.len()
        invariant
            0 <= i <= fields@.len(),
            spec_lookup(fields@, key@) == spec_lookup(fields@.skip(i as int), key@),
        decreases fields@.len() - i,
    {
        if fields[i].0 == *key {
            assert(fields@.skip(i as int)[0] == fields@[i as int]);
            return Some(&fields[i].1);
        }
        proof {
            lemma_spec_lookup_step(fields@, key@, i as int);
        }
        i = i + 1;
    }
    assert(fields@.skip(i as int) =~= Seq::<(String, Json)>::empty());
    None
}


/// A deep copy of a JSON array's elements, each equal to its original as a
/// document.
#[verifier::loop_isolation(false)]
pub fn clone_json_vec(v: &Vec<Json>) -> (r: Vec<Json>)
    ensures
        json_seq_eq(r@, v@),
{
    let mut out: Vec<Json> = Vec::new();
    let mut i: usize = 0;
    while i < v.len()
        invariant
            0 <= i <= v@.len(),
            out@.len() == i as int,
            forall|k: int| 0 <= k < i as int ==> json_eq(#[trigger] out@[k], v@[k]),
        decreases v@.len() - i as int,
    {
        let ghost prev = out@;
        out.push(v[i].clone());
        proof {
            assert(forall|k: int| 0 <= k < prev.len() ==> #[trigger] out@[k] == prev[k]);
        }
        i = i + 1;
    }
    out
}

} // verus!
