//! The error tree, the validation result type, and the field combinators.
//!
//! An `Errors` value mirrors the shape of the JSON it describes: a `Node`
//! carries messages for one scalar position, an `Array` has one slot per
//! element of the validated array, and an `Object` has one entry per field
//! that failed.  A validator never returns an empty tree: failure always
//! carries at least one message somewhere.
//!
//! Every validator implements `Parseable` (or `StringWrapper` for types read
//! from one JSON string).  The trait contract ties the three per-type spec
//! functions together: validation succeeds exactly on the inputs the type's
//! `json_valid` accepts, a success is related to the input by `value_rel`,
//! and a failure is pinned down by `err_rel`.

use vstd::prelude::*;

use crate::json::{lookup, spec_lookup, Json};

verus! {

pub enum Errors {
    Node(Vec<String>),
    Array(Vec<Option<Errors>>),
    Object(Vec<(String, Errors)>),
}

pub type ParseResult<T> = Result<T, Errors>;

/// Recursive emptiness: a `Node` without messages, an `Array` whose every
/// slot is empty, and an `Object` whose every entry is empty are all empty.
pub open spec fn errors_empty(e: Errors) -> bool
    decreases e,
{
    match e {
        Errors::Node(msgs) => msgs@.len() == 0,
        Errors::Array(slots) => slots_all_empty(slots@),
        Errors::Object(ents) => ents_all_empty(ents@),
    }
}

pub open spec fn slots_all_empty(s: Seq<Option<Errors>>) -> bool
    decreases s,
{
    forall|i: int| 0 <= i < s.len() ==> slot_empty(#[trigger] s[i])
}

pub open spec fn ents_all_empty(s: Seq<(String, Errors)>) -> bool
    decreases s,
{
    forall|i: int| 0 <= i < s.len() ==> errors_empty((#[trigger] s[i]).1)
}

pub open spec fn slot_empty(s: Option<Errors>) -> bool
    decreases s,
{
    match s {
        None => true,
        Some(e) => errors_empty(e),
    }
}

impl Errors {
    /// The recursive emptiness test: a tree is empty exactly when it carries
    /// no message anywhere, however deeply nested.
    #[verifier::loop_isolation(false)]
    pub fn is_empty(&self) -> (r: bool)
        ensures
            r == errors_empty(*self),
        decreases self,
    {
        match self {
            Errors::Node(msgs) => msgs.len() == 0,
            Errors::Array(slots) => {
                let mut i: usize = 0;
                while i < slots.len()
                    invariant
                        0 <= i <= slots@.len(),
                        forall|k: int| 0 <= k < i as int ==> slot_empty(#[trigger] slots@[k]),
                    decreases slots@.len() - i as int,
                {
                    match &slots[i] {
                        None => {},
                        Some(e) => {
                            if !e.is_empty() {
                                assert(!slot_empty(slots@[i as int]));
                                return false;
                            }
                        },
                    }
                    i = i + 1;
                }
                true
            },
            Errors::Object(ents) => {
                let mut i: usize = 0;
                while i < ents.len()
                    invariant
                        0 <= i <= ents@.len(),
                        forall|k: int| 0 <= k < i as int ==> errors_empty((#[trigger] ents@[k]).1),
                    decreases ents@.len() - i as int,
                {
                    if !ents[i].1.is_empty() {
                        return false;
                    }
                    i = i + 1;
                }
                true
            },
        }
    }
}

/// Attaches a child tree to a mapping under `key`; attaching an empty child
/// is a no-op, so a mapping never carries an "empty but present" entry.
pub fn merge_into(parent: &mut Vec<(String, Errors)>, key: &str, child: Errors)
    ensures
        errors_empty(child) ==> final(parent)@ == old(parent)@,
        !errors_empty(child) ==> pushed_err(old(parent)@, final(parent)@, key@)
            && final(parent)@.last().1 == child,
{
    if child.is_empty() {
        return ;
    }
    parent.push((key.to_owned(), child));
    proof {
        assert(final(parent)@.drop_last() =~= old(parent)@);
        assert(final(parent)@ == old(parent)@.push(final(parent)@.last()));
    }
}

/// A `Node` holding exactly one message, `msg`.
pub open spec fn is_leaf_msg(e: Errors, msg: Seq<char>) -> bool {
    match e {
        Errors::Node(msgs) => msgs@.len() == 1 && msgs@[0]@ == msg,
        _ => false,
    }
}

/// A fresh `Node` error holding the one message `msg`.
pub fn leaf(msg: &str) -> (e: Errors)
    ensures
        is_leaf_msg(e, msg@),
        !errors_empty(e),
{
    let mut msgs: Vec<String> = Vec::new();
    msgs.push(msg.to_owned());
    Errors::Node(msgs)
}

/// A value validated from one JSON value.
///
/// `json_valid` says on which inputs validation succeeds; `value_rel` relates
/// a successful result to the input; `err_rel` pins the error tree returned
/// on the inputs where validation fails.
pub trait Parseable: Sized {
    spec fn json_valid(j: Json) -> bool;

    spec fn value_rel(j: Json, v: Self) -> bool;

    spec fn err_rel(j: Json, e: Errors) -> bool;

    fn from_json(json: &Json) -> (r: ParseResult<Self>)
        ensures
            match r {
                Ok(v) => Self::json_valid(*json) && Self::value_rel(*json, v),
                Err(e) => !Self::json_valid(*json) && !errors_empty(e) && Self::err_rel(
                    *json,
                    e,
                ),
            },
    ;
}

/// A value validated from one JSON string: its format rule is a predicate on
/// the string's characters.
pub trait StringWrapper: Sized {
    spec fn str_valid(s: Seq<char>) -> bool;

    spec fn str_value_rel(s: Seq<char>, v: Self) -> bool;

    spec fn str_err_rel(s: Seq<char>, e: Errors) -> bool;

    fn from_string(s: &String) -> (r: ParseResult<Self>)
        ensures
            match r {
                Ok(v) => Self::str_valid(s@) && Self::str_value_rel(s@, v),
                Err(e) => !Self::str_valid(s@) && !errors_empty(e) && Self::str_err_rel(
                    s@,
                    e,
                ),
            },
    ;
}

impl<T: StringWrapper> Parseable for T {
    open spec fn json_valid(j: Json) -> bool {
        match j {
            Json::String(s) => T::str_valid(s@),
            _ => false,
        }
    }

    open spec fn value_rel(j: Json, v: T) -> bool {
        match j {
            Json::String(s) => T::str_value_rel(s@, v),
            _ => false,
        }
    }

    open spec fn err_rel(j: Json, e: Errors) -> bool {
        match j {
            Json::String(s) => T::str_err_rel(s@, e),
            _ => is_leaf_msg(e, "must be a string"@),
        }
    }

    fn from_json(json: &Json) -> (r: ParseResult<T>) {
        match json {
            Json::String(s) => T::from_string(s),
            _ => Err(leaf("must be a string")),
        }
    }
}

impl StringWrapper for String {
    open spec fn str_valid(s: Seq<char>) -> bool {
        true
    }

    open spec fn str_value_rel(s: Seq<char>, v: String) -> bool {
        v@ == s
    }

    open spec fn str_err_rel(s: Seq<char>, e: Errors) -> bool {
        false
    }

    fn from_string(s: &String) -> (r: ParseResult<String>) {
        Ok(s.clone())
    }
}

// ---------------------------------------------------------------------------
// Field combinators.
// ---------------------------------------------------------------------------
pub open spec fn req_valid<T: Parseable>(fields: Seq<(String, Json)>, key: Seq<char>) -> bool {
    match spec_lookup(fields, key) {
        Some(j) => T::json_valid(j),
        None => false,
    }
}

pub open spec fn req_value_rel<T: Parseable>(
    fields: Seq<(String, Json)>,
    key: Seq<char>,
    v: T,
) -> bool {
    match spec_lookup(fields, key) {
        Some(j) => T::value_rel(j, v),
        None => false,
    }
}

pub open spec fn req_err_rel<T: Parseable>(
    fields: Seq<(String, Json)>,
    key: Seq<char>,
    e: Errors,
) -> bool {
    match spec_lookup(fields, key) {
        Some(j) => T::err_rel(j, e),
        None => is_leaf_msg(e, "must be defined"@),
    }
}

/// The field `key` must be present and must validate as a `T`.
pub fn required<T: Parseable>(fields: &Vec<(String, Json)>, key: &String) -> (r: ParseResult<T>)
    ensures
        match r {
            Ok(v) => req_valid::<T>(fields@, key@) && req_value_rel::<T>(fields@, key@, v),
            Err(e) => !req_valid::<T>(fields@, key@) && !errors_empty(e) && req_err_rel::<T>(
                fields@,
                key@,
                e,
            ),
        },
{
    match lookup(fields, key) {
        Some(j) => T::from_json(j),
        None => Err(leaf("must be defined")),
    }
}

pub open spec fn opt_valid<T: Parseable>(fields: Seq<(String, Json)>, key: Seq<char>) -> bool {
    match spec_lookup(fields, key) {
        Some(j) => T::json_valid(j),
        None => true,
    }
}

pub open spec fn opt_value_rel<T: Parseable>(
    fields: Seq<(String, Json)>,
    key: Seq<char>,
    v: Option<T>,
) -> bool {
    match spec_lookup(fields, key) {
        Some(j) => match v {
            Some(t) => T::value_rel(j, t),
            None => false,
        },
        None => v is None,
    }
}

pub open spec fn opt_err_rel<T: Parseable>(
    fields: Seq<(String, Json)>,
    key: Seq<char>,
    e: Errors,
) -> bool {
    match spec_lookup(fields, key) {
        Some(j) => T::err_rel(j, e),
        None => false,
    }
}

/// The field `key` may be absent; when present it must validate as a `T`.
/// Absence is the only "not provided" state: it yields `None`.
pub fn optional<T: Parseable>(fields: &Vec<(String, Json)>, key: &String) -> (r: ParseResult<
    Option<T>,
>)
    ensures
        match r {
            Ok(v) => opt_valid::<T>(fields@, key@) && opt_value_rel::<T>(fields@, key@, v),
            Err(e) => !opt_valid::<T>(fields@, key@) && !errors_empty(e) && opt_err_rel::<T>(
                fields@,
                key@,
                e,
            ),
        },
{
    match lookup(fields, key) {
        Some(j) => match T::from_json(j) {
            Ok(v) => Ok(Some(v)),
            Err(e) => Err(e),
        },
        None => Ok(None),
    }
}

// ---------------------------------------------------------------------------
// Homogeneous arrays.
// ---------------------------------------------------------------------------
pub open spec fn arr_valid<T: Parseable>(j: Json) -> bool {
    match j {
        Json::Array(elems) => forall|i: int|
            0 <= i < elems@.len() ==> T::json_valid(#[trigger] elems@[i]),
        _ => false,
    }
}

pub open spec fn arr_value_rel<T: Parseable>(j: Json, vs: Seq<T>) -> bool {
    match j {
        Json::Array(elems) => vs.len() == elems@.len() && forall|i: int|
            0 <= i < elems@.len() ==> T::value_rel(elems@[i], #[trigger] vs[i]),
        _ => false,
    }
}

/// The failure tree of an array: one slot per input element, a slot filled
/// exactly when that element fails on its own, independently of its siblings.
pub open spec fn arr_err_rel<T: Parseable>(j: Json, e: Errors) -> bool {
    match j {
        Json::Array(elems) => match e {
            Errors::Array(slots) => {
                &&& slots@.len() == elems@.len()
                &&& forall|i: int|
                    0 <= i < elems@.len() ==> {
                        &&& ((#[trigger] slots@[i]) is Some <==> !T::json_valid(elems@[i]))
                        &&& match slots@[i] {
                            Some(se) => !errors_empty(se) && T::err_rel(elems@[i], se),
                            None => true,
                        }
                    }
            },
            _ => false,
        },
        _ => is_leaf_msg(e, "must be an array"@),
    }
}

/// The value must be an array and every element must validate as a `T`.
/// All elements are always attempted; if any fails, no partial list is
/// returned and the failure has exactly one slot per input element.
pub fn array_of<T: Parseable>(json: &Json) -> (r: ParseResult<Vec<T>>)
    ensures
        match r {
            Ok(vs) => arr_valid::<T>(*json) && arr_value_rel::<T>(*json, vs@),
            Err(e) => !arr_valid::<T>(*json) && !errors_empty(e) && arr_err_rel::<T>(*json, e),
        },
{
    match json {
        Json::Array(elems) => {
            let mut result: Vec<T> = Vec::new();
            let mut slots: Vec<Option<Errors>> = Vec::new();
            let mut any_err = false;
            let mut i: usize = 0;
            while i < elems.len()
                invariant
                    0 <= i <= elems@.len(),
                    slots@.len() == i as int,
                    !any_err ==> result@.len() == i as int,
                    forall|k: int|
                        0 <= k < i as int ==> {
                            &&& ((#[trigger] slots@[k]) is Some <==> !T::json_valid(elems@[k]))
                            &&& match slots@[k] {
                                Some(se) => !errors_empty(se) && T::err_rel(elems@[k], se),
                                None => true,
                            }
                        },
                    !any_err ==> forall|k: int|
                        0 <= k < i as int ==> T::json_valid(#[trigger] elems@[k]),
                    !any_err ==> forall|k: int|
                        0 <= k < i as int ==> T::value_rel(
                            elems@[k],
                            #[trigger] result@[k],
                        ),
                    any_err <==> exists|k: int| 0 <= k < i as int && (#[trigger] slots@[k]) is Some,
                decreases elems@.len() - i as int,
            {
                let ghost prev_slots = slots@;
                let ghost prev_result = result@;
                let ghost prev_any = any_err;
                match T::from_json(&elems[i]) {
                    Ok(v) => {
                        result.push(v);
                        slots.push(None);
                        proof {
                            assert(forall|k: int|
                                0 <= k < prev_slots.len() ==> #[trigger] slots@[k]
                                    == prev_slots[k]);
                            assert(forall|k: int|
                                0 <= k < prev_result.len() ==> #[trigger] result@[k]
                                    == prev_result[k]);
                            if !any_err {
                                assert(result@[i as int] == v);
                                assert forall|k: int| 0 <= k < i as int + 1 implies T::json_valid(
                                    elems@[k],
                                ) && T::value_rel(elems@[k], #[trigger] result@[k]) by {
                                    if k < i as int {
                                        assert(result@[k] == prev_result[k]);
                                        assert(T::value_rel(elems@[k], prev_result[k]));
                                    } else {
                                        assert(result@[k] == v);
                                    }
                                }
                            } else {
                                let k0 = choose|k: int|
                                    0 <= k < prev_slots.len() && (#[trigger] prev_slots[k])
                                        is Some;
                                assert(slots@[k0] is Some);
                            }
                        }
                    },
                    Err(err) => {
                        slots.push(Some(err));
                        any_err = true;
                        proof {
                            assert(forall|k: int|
                                0 <= k < prev_slots.len() ==> #[trigger] slots@[k]
                                    == prev_slots[k]);
                            assert(slots@[i as int] is Some);
                        }
                    },
                }
                i = i + 1;
            }
            if any_err {
                proof {
                    let k = choose|k: int| 0 <= k < slots@.len() && (#[trigger] slots@[k]) is Some;
                    assert(!slot_empty(slots@[k]));
                    assert(!T::json_valid(elems@[k]));
                    assert(!slots_all_empty(slots@));
                }
                return Err(Errors::Array(slots));
            }
            assert(arr_valid::<T>(*json));
            assert(arr_value_rel::<T>(*json, result@));
            Ok(result)
        },
        _ => Err(leaf("must be an array")),
    }
}

pub open spec fn opt_arr_valid<T: Parseable>(fields: Seq<(String, Json)>, key: Seq<char>) -> bool {
    match spec_lookup(fields, key) {
        Some(j) => arr_valid::<T>(j),
        None => true,
    }
}

pub open spec fn opt_arr_value_rel<T: Parseable>(
    fields: Seq<(String, Json)>,
    key: Seq<char>,
    v: Option<Vec<T>>,
) -> bool {
    match spec_lookup(fields, key) {
        Some(j) => match v {
            Some(vs) => arr_value_rel::<T>(j, vs@),
            None => false,
        },
        None => v is None,
    }
}

pub open spec fn opt_arr_err_rel<T: Parseable>(
    fields: Seq<(String, Json)>,
    key: Seq<char>,
    e: Errors,
) -> bool {
    match spec_lookup(fields, key) {
        Some(j) => arr_err_rel::<T>(j, e),
        None => false,
    }
}

/// The field `key` may be absent; when present it must be an array of `T`.
/// An absent field and a present empty array are distinct results.
pub fn optional_array<T: Parseable>(fields: &Vec<(String, Json)>, key: &String) -> (r: ParseResult<
    Option<Vec<T>>,
>)
    ensures
        match r {
            Ok(v) => opt_arr_valid::<T>(fields@, key@) && opt_arr_value_rel::<T>(fields@, key@, v),
            Err(e) => !opt_arr_valid::<T>(fields@, key@) && !errors_empty(e)
                && opt_arr_err_rel::<T>(fields@, key@, e),
        },
{
    match lookup(fields, key) {
        Some(j) => match array_of::<T>(j) {
            Ok(vs) => Ok(Some(vs)),
            Err(e) => Err(e),
        },
        None => Ok(None),
    }
}


// ---------------------------------------------------------------------------
// Object error trees.
// ---------------------------------------------------------------------------
/// The keys of an object error's entries, in order.
pub open spec fn ent_keys(ents: Seq<(String, Errors)>) -> Seq<Seq<char>> {
    ents.map_values(|p: (String, Errors)| p.0@)
}

/// A one-key sequence when `bad` holds, else empty: composites concatenate
/// these, field by field, to pin exactly which entries a failure carries.
pub open spec fn key_if(k: Seq<char>, bad: bool) -> Seq<Seq<char>> {
    if bad {
        seq![k]
    } else {
        Seq::empty()
    }
}

/// An object failure: entries under exactly `keys`, in that order, each
/// non-empty and related to its field by `f`.
pub open spec fn obj_err_rel(e: Errors, keys: Seq<Seq<char>>, f: spec_fn(Seq<char>, Errors) -> bool) -> bool {
    match e {
        Errors::Object(ents) => {
            &&& ent_keys(ents@) == keys
            &&& forall|i: int|
                0 <= i < ents@.len() ==> f((#[trigger] ents@[i]).0@, ents@[i].1) && !errors_empty(
                    ents@[i].1,
                )
        },
        _ => false,
    }
}

pub proof fn lemma_obj_err_not_empty(e: Errors, keys: Seq<Seq<char>>, f: spec_fn(Seq<char>, Errors) -> bool)
    requires
        obj_err_rel(e, keys, f),
        keys.len() > 0,
    ensures
        !errors_empty(e),
{
    match e {
        Errors::Object(ents) => {
            assert(ents@.len() == keys.len());
            assert(!errors_empty(ents@[0].1));
            assert(!ents_all_empty(ents@));
        },
        _ => {},
    }
}


// ---------------------------------------------------------------------------
// Scalar fields.
// ---------------------------------------------------------------------------
pub open spec fn opt_bool_valid(fields: Seq<(String, Json)>, key: Seq<char>) -> bool {
    match spec_lookup(fields, key) {
        None => true,
        Some(j) => j is Boolean,
    }
}

pub open spec fn opt_bool_val(fields: Seq<(String, Json)>, key: Seq<char>, default: bool) -> bool {
    match spec_lookup(fields, key) {
        Some(Json::Boolean(b)) => b,
        _ => default,
    }
}

/// The field `key` may be absent, in which case `default` is taken; when
/// present it must be a JSON boolean.
pub fn optional_bool(fields: &Vec<(String, Json)>, key: &String, default: bool) -> (r: ParseResult<
    bool,
>)
    ensures
        match r {
            Ok(b) => opt_bool_valid(fields@, key@) && b == opt_bool_val(fields@, key@, default),
            Err(e) => !opt_bool_valid(fields@, key@) && !errors_empty(e) && is_leaf_msg(
                e,
                "must be a boolean"@,
            ),
        },
{
    match lookup(fields, key) {
        Some(j) => match j {
            Json::Boolean(b) => Ok(*b),
            _ => Err(leaf("must be a boolean")),
        },
        None => Ok(default),
    }
}

pub open spec fn req_u64_valid(fields: Seq<(String, Json)>, key: Seq<char>) -> bool {
    match spec_lookup(fields, key) {
        Some(j) => j is U64,
        None => false,
    }
}

pub open spec fn req_u64_val(fields: Seq<(String, Json)>, key: Seq<char>) -> u64 {
    match spec_lookup(fields, key) {
        Some(Json::U64(x)) => x,
        _ => 0,
    }
}

pub open spec fn req_u64_err(fields: Seq<(String, Json)>, key: Seq<char>, e: Errors) -> bool {
    match spec_lookup(fields, key) {
        Some(j) => is_leaf_msg(e, "must be a positive integer"@),
        None => is_leaf_msg(e, "must be defined"@),
    }
}

/// The field `key` must be present and must be a non-negative JSON integer.
pub fn required_u64(fields: &Vec<(String, Json)>, key: &String) -> (r: ParseResult<u64>)
    ensures
        match r {
            Ok(x) => req_u64_valid(fields@, key@) && x == req_u64_val(fields@, key@),
            Err(e) => !req_u64_valid(fields@, key@) && !errors_empty(e) && req_u64_err(
                fields@,
                key@,
                e,
            ),
        },
{
    match lookup(fields, key) {
        Some(j) => match j {
            Json::U64(x) => Ok(*x),
            _ => Err(leaf("must be a positive integer")),
        },
        None => Err(leaf("must be defined")),
    }
}

pub open spec fn opt_u64_valid(fields: Seq<(String, Json)>, key: Seq<char>) -> bool {
    match spec_lookup(fields, key) {
        None => true,
        Some(j) => j is U64,
    }
}

pub open spec fn opt_u64_val(fields: Seq<(String, Json)>, key: Seq<char>) -> Option<u64> {
    match spec_lookup(fields, key) {
        Some(Json::U64(x)) => Some(x),
        _ => None,
    }
}

/// The field `key` may be absent; when present it must be a non-negative
/// JSON integer.
pub fn optional_u64(fields: &Vec<(String, Json)>, key: &String) -> (r: ParseResult<Option<u64>>)
    ensures
        match r {
            Ok(x) => opt_u64_valid(fields@, key@) && x == opt_u64_val(fields@, key@),
            Err(e) => !opt_u64_valid(fields@, key@) && !errors_empty(e) && is_leaf_msg(
                e,
                "must be a positive integer"@,
            ),
        },
{
    match lookup(fields, key) {
        Some(j) => match j {
            Json::U64(x) => Ok(Some(*x)),
            _ => Err(leaf("must be a positive integer")),
        },
        None => Ok(None),
    }
}


// ---------------------------------------------------------------------------
// Arrays of integers.
// ---------------------------------------------------------------------------
pub open spec fn u64_arr_valid(j: Json) -> bool {
    match j {
        Json::Array(elems) => forall|i: int| 0 <= i < elems@.len() ==> (#[trigger] elems@[i]) is U64,
        _ => false,
    }
}

pub open spec fn u64_arr_value_rel(j: Json, vs: Seq<u64>) -> bool {
    match j {
        Json::Array(elems) => vs.len() == elems@.len() && forall|i: int|
            0 <= i < elems@.len() ==> #[trigger] elems@[i] == Json::U64(vs[i]),
        _ => false,
    }
}

pub open spec fn u64_arr_err_rel(j: Json, e: Errors) -> bool {
    match j {
        Json::Array(elems) => match e {
            Errors::Array(slots) => {
                &&& slots@.len() == elems@.len()
                &&& forall|i: int|
                    0 <= i < elems@.len() ==> {
                        &&& ((#[trigger] slots@[i]) is Some <==> !(elems@[i] is U64))
                        &&& match slots@[i] {
                            Some(se) => is_leaf_msg(se, "must be a positive integer"@),
                            None => true,
                        }
                    }
            },
            _ => false,
        },
        _ => is_leaf_msg(e, "must be an array"@),
    }
}

/// The value must be an array of non-negative JSON integers; every element
/// is checked, and the failure has one slot per input element.
#[verifier::loop_isolation(false)]
pub fn u64_array_of(json: &Json) -> (r: ParseResult<Vec<u64>>)
    ensures
        match r {
            Ok(vs) => u64_arr_valid(*json) && u64_arr_value_rel(*json, vs@),
            Err(e) => !u64_arr_valid(*json) && !errors_empty(e) && u64_arr_err_rel(*json, e),
        },
{
    match json {
        Json::Array(elems) => {
            let mut result: Vec<u64> = Vec::new();
            let mut slots: Vec<Option<Errors>> = Vec::new();
            let mut any_err = false;
            let mut i: usize = 0;
            while i < elems.len()
                invariant
                    0 <= i <= elems@.len(),
                    slots@.len() == i as int,
                    !any_err ==> result@.len() == i as int,
                    forall|k: int|
                        0 <= k < i as int ==> {
                            &&& ((#[trigger] slots@[k]) is Some <==> !(elems@[k] is U64))
                            &&& match slots@[k] {
                                Some(se) => is_leaf_msg(se, "must be a positive integer"@)
                                    && !errors_empty(se),
                                None => true,
                            }
                        },
                    !any_err ==> forall|k: int|
                        0 <= k < i as int ==> #[trigger] elems@[k] == Json::U64(result@[k]),
                    any_err <==> exists|k: int| 0 <= k < i as int && (#[trigger] slots@[k]) is Some,
                decreases elems@.len() - i as int,
            {
                let ghost prev_slots = slots@;
                let ghost prev_any = any_err;
                match &elems[i] {
                    Json::U64(x) => {
                        result.push(*x);
                        slots.push(None);
                    },
                    _ => {
                        slots.push(Some(leaf("must be a positive integer")));
                        any_err = true;
                        assert(slots@[i as int] is Some);
                    },
                }
                proof {
                    assert(forall|k: int|
                        0 <= k < prev_slots.len() ==> #[trigger] slots@[k] == prev_slots[k]);
                    if prev_any {
                        let k0 = choose|k: int|
                            0 <= k < prev_slots.len() && (#[trigger] prev_slots[k]) is Some;
                        assert(slots@[k0] is Some);
                    }
                }
                i = i + 1;
            }
            if any_err {
                proof {
                    let k = choose|k: int| 0 <= k < slots@.len() && (#[trigger] slots@[k]) is Some;
                    assert(!slot_empty(slots@[k]));
                    assert(!slots_all_empty(slots@));
                    assert(!(elems@[k] is U64));
                }
                return Err(Errors::Array(slots));
            }
            Ok(result)
        },
        _ => Err(leaf("must be an array")),
    }
}

pub open spec fn opt_u64_arr_valid(fields: Seq<(String, Json)>, key: Seq<char>) -> bool {
    match spec_lookup(fields, key) {
        Some(j) => u64_arr_valid(j),
        None => true,
    }
}

pub open spec fn opt_u64_arr_value_rel(
    fields: Seq<(String, Json)>,
    key: Seq<char>,
    v: Option<Vec<u64>>,
) -> bool {
    match spec_lookup(fields, key) {
        Some(j) => match v {
            Some(vs) => u64_arr_value_rel(j, vs@),
            None => false,
        },
        None => v is None,
    }
}

pub open spec fn opt_u64_arr_err_rel(
    fields: Seq<(String, Json)>,
    key: Seq<char>,
    e: Errors,
) -> bool {
    match spec_lookup(fields, key) {
        Some(j) => u64_arr_err_rel(j, e),
        None => false,
    }
}

/// The field `key` may be absent; when present it must be an array of
/// non-negative JSON integers.
pub fn optional_u64_array(fields: &Vec<(String, Json)>, key: &String) -> (r: ParseResult<
    Option<Vec<u64>>,
>)
    ensures
        match r {
            Ok(v) => opt_u64_arr_valid(fields@, key@) && opt_u64_arr_value_rel(fields@, key@, v),
            Err(e) => !opt_u64_arr_valid(fields@, key@) && !errors_empty(e) && opt_u64_arr_err_rel(
                fields@,
                key@,
                e,
            ),
        },
{
    match lookup(fields, key) {
        Some(j) => match u64_array_of(j) {
            Ok(vs) => Ok(Some(vs)),
            Err(e) => Err(e),
        },
        None => Ok(None),
    }
}


// ---------------------------------------------------------------------------
// Field steps: one combinator call, recording any failure under its key.
// ---------------------------------------------------------------------------
/// A failure entry was appended for `key`: the entries before it are
/// untouched and the new entry's tree is non-empty and satisfies `rel` via
/// the caller's per-field relation.
pub open spec fn pushed_err(
    old_errs: Seq<(String, Errors)>,
    new_errs: Seq<(String, Errors)>,
    key: Seq<char>,
) -> bool {
    &&& new_errs.len() == old_errs.len() + 1
    &&& new_errs.drop_last() == old_errs
    &&& new_errs == old_errs.push(new_errs.last())
    &&& new_errs.last().0@ == key
    &&& !errors_empty(new_errs.last().1)
}

pub fn field_required<T: Parseable>(
    fields: &Vec<(String, Json)>,
    key: &str,
    errs: &mut Vec<(String, Errors)>,
) -> (r: Option<T>)
    ensures
        match r {
            Some(v) => req_valid::<T>(fields@, key@) && req_value_rel::<T>(fields@, key@, v)
                && final(errs)@ == old(errs)@,
            None => !req_valid::<T>(fields@, key@) && pushed_err(old(errs)@, final(errs)@, key@)
                && req_err_rel::<T>(fields@, key@, final(errs)@.last().1),
        },
{
    match required::<T>(fields, &key.to_owned()) {
        Ok(v) => Some(v),
        Err(e) => {
            errs.push((key.to_owned(), e));
            proof {
                assert(final(errs)@.drop_last() =~= old(errs)@);
                assert(final(errs)@ == old(errs)@.push(final(errs)@.last()));
            }
            None
        },
    }
}

pub fn field_optional<T: Parseable>(
    fields: &Vec<(String, Json)>,
    key: &str,
    errs: &mut Vec<(String, Errors)>,
) -> (r: Option<Option<T>>)
    ensures
        match r {
            Some(v) => opt_valid::<T>(fields@, key@) && opt_value_rel::<T>(fields@, key@, v)
                && final(errs)@ == old(errs)@,
            None => !opt_valid::<T>(fields@, key@) && pushed_err(old(errs)@, final(errs)@, key@)
                && opt_err_rel::<T>(fields@, key@, final(errs)@.last().1),
        },
{
    match optional::<T>(fields, &key.to_owned()) {
        Ok(v) => Some(v),
        Err(e) => {
            errs.push((key.to_owned(), e));
            proof {
                assert(final(errs)@.drop_last() =~= old(errs)@);
                assert(final(errs)@ == old(errs)@.push(final(errs)@.last()));
            }
            None
        },
    }
}

pub fn field_optional_array<T: Parseable>(
    fields: &Vec<(String, Json)>,
    key: &str,
    errs: &mut Vec<(String, Errors)>,
) -> (r: Option<Option<Vec<T>>>)
    ensures
        match r {
            Some(v) => opt_arr_valid::<T>(fields@, key@) && opt_arr_value_rel::<T>(
                fields@,
                key@,
                v,
            ) && final(errs)@ == old(errs)@,
            None => !opt_arr_valid::<T>(fields@, key@) && pushed_err(
                old(errs)@,
                final(errs)@,
                key@,
            ) && opt_arr_err_rel::<T>(fields@, key@, final(errs)@.last().1),
        },
{
    match optional_array::<T>(fields, &key.to_owned()) {
        Ok(v) => Some(v),
        Err(e) => {
            errs.push((key.to_owned(), e));
            proof {
                assert(final(errs)@.drop_last() =~= old(errs)@);
                assert(final(errs)@ == old(errs)@.push(final(errs)@.last()));
            }
            None
        },
    }
}

pub fn field_optional_u64_array(
    fields: &Vec<(String, Json)>,
    key: &str,
    errs: &mut Vec<(String, Errors)>,
) -> (r: Option<Option<Vec<u64>>>)
    ensures
        match r {
            Some(v) => opt_u64_arr_valid(fields@, key@) && opt_u64_arr_value_rel(fields@, key@, v)
                && final(errs)@ == old(errs)@,
            None => !opt_u64_arr_valid(fields@, key@) && pushed_err(old(errs)@, final(errs)@, key@)
                && opt_u64_arr_err_rel(fields@, key@, final(errs)@.last().1),
        },
{
    match optional_u64_array(fields, &key.to_owned()) {
        Ok(v) => Some(v),
        Err(e) => {
            errs.push((key.to_owned(), e));
            proof {
                assert(final(errs)@.drop_last() =~= old(errs)@);
                assert(final(errs)@ == old(errs)@.push(final(errs)@.last()));
            }
            None
        },
    }
}







pub open spec fn req_bool_valid(fields: Seq<(String, Json)>, key: Seq<char>) -> bool {
    match spec_lookup(fields, key) {
        Some(j) => j is Boolean,
        None => false,
    }
}

pub open spec fn req_bool_val(fields: Seq<(String, Json)>, key: Seq<char>) -> bool {
    match spec_lookup(fields, key) {
        Some(Json::Boolean(b)) => b,
        _ => false,
    }
}

pub open spec fn req_bool_err(fields: Seq<(String, Json)>, key: Seq<char>, e: Errors) -> bool {
    match spec_lookup(fields, key) {
        Some(j) => is_leaf_msg(e, "must be a boolean"@),
        None => is_leaf_msg(e, "must be defined"@),
    }
}

/// The field `key` must be present and must be a JSON boolean; a failure is
/// recorded under `key`.
pub fn field_required_bool(
    fields: &Vec<(String, Json)>,
    key: &str,
    errs: &mut Vec<(String, Errors)>,
) -> (r: Option<bool>)
    ensures
        match r {
            Some(b) => req_bool_valid(fields@, key@) && b == req_bool_val(fields@, key@)
                && final(errs)@ == old(errs)@,
            None => !req_bool_valid(fields@, key@) && pushed_err(old(errs)@, final(errs)@, key@)
                && req_bool_err(fields@, key@, final(errs)@.last().1),
        },
{
    let outcome = match lookup(fields, &key.to_owned()) {
        Some(j) => match j {
            Json::Boolean(b) => Ok(*b),
            _ => Err(leaf("must be a boolean")),
        },
        None => Err(leaf("must be defined")),
    };
    match outcome {
        Ok(b) => Some(b),
        Err(e) => {
            errs.push((key.to_owned(), e));
            proof {
                assert(final(errs)@.drop_last() =~= old(errs)@);
                assert(final(errs)@ == old(errs)@.push(final(errs)@.last()));
            }
            None
        },
    }
}

/// The field `key` must be present and must be a non-negative JSON integer;
/// a failure is recorded under `key`.
pub fn field_required_u64(
    fields: &Vec<(String, Json)>,
    key: &str,
    errs: &mut Vec<(String, Errors)>,
) -> (r: Option<u64>)
    ensures
        match r {
            Some(x) => req_u64_valid(fields@, key@) && x == req_u64_val(fields@, key@)
                && final(errs)@ == old(errs)@,
            None => !req_u64_valid(fields@, key@) && pushed_err(old(errs)@, final(errs)@, key@)
                && req_u64_err(fields@, key@, final(errs)@.last().1),
        },
{
    match required_u64(fields, &key.to_owned()) {
        Ok(x) => Some(x),
        Err(e) => {
            errs.push((key.to_owned(), e));
            proof {
                assert(final(errs)@.drop_last() =~= old(errs)@);
                assert(final(errs)@ == old(errs)@.push(final(errs)@.last()));
            }
            None
        },
    }
}


/// A required field that is absent can never validate, and its failure is
/// exactly the one "must be defined" message, whatever the element type.
pub proof fn lemma_required_missing<T: Parseable>(
    fields: Seq<(String, Json)>,
    key: Seq<char>,
    e: Errors,
)
    requires
        spec_lookup(fields, key) is None,
    ensures
        !req_valid::<T>(fields, key),
        req_err_rel::<T>(fields, key, e) == is_leaf_msg(e, "must be defined"@),
{
}

} // verus!
