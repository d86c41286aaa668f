//! Untyped payload trees.
//!
//! A frame's `d` body arrives as loosely typed data.  The transport
//! collaborator hands it to this library as a [`JsonValue`]: a tree of nulls,
//! booleans, unsigned integers, strings, arrays and objects.  All structural
//! decoding in this crate is specified over this tree.

use vstd::prelude::*;

verus! {

/// One node of an untyped payload tree.
///
/// An object is an ordered list of key/value pairs; a lookup takes the first
/// pair whose key matches, so a duplicated key cannot change what a decoder
/// sees once the first occurrence is fixed.
#[derive(Debug, PartialEq)]
pub enum JsonValue {
    Null,
    Bool(bool),
    UInt(u64),
    Str(String),
    Arr(Vec<JsonValue>),
    Obj(Vec<(String, JsonValue)>),
}

/// First pair of `fields` whose key reads `name`, if any.
pub open spec fn obj_lookup(fields: Seq<(String, JsonValue)>, name: Seq<char>) -> Option<JsonValue>
    decreases fields.len(),
{
    if fields.len() == 0 {
        None
    } else if fields[0].0@ == name {
        Some(fields[0].1)
    } else {
        obj_lookup(fields.skip(1), name)
    }
}

/// Field `name` of `v`, when `v` is an object that has it.
pub open spec fn json_get(v: JsonValue, name: Seq<char>) -> Option<JsonValue> {
    match v {
        JsonValue::Obj(fields) => obj_lookup(fields@, name),
        _ => None,
    }
}

/// Field `name` of `v` as a string, when it is one.
pub open spec fn json_str(v: JsonValue, name: Seq<char>) -> Option<Seq<char>> {
    match json_get(v, name) {
        Some(JsonValue::Str(s)) => Some(s@),
        _ => None,
    }
}

/// Field `name` of `v` as an unsigned integer, when it is one.
pub open spec fn json_u64(v: JsonValue, name: Seq<char>) -> Option<u64> {
    match json_get(v, name) {
        Some(JsonValue::UInt(n)) => Some(n),
        _ => None,
    }
}

/// Field `name` of `v` as a boolean, when it is one.
pub open spec fn json_bool(v: JsonValue, name: Seq<char>) -> Option<bool> {
    match json_get(v, name) {
        Some(JsonValue::Bool(b)) => Some(b),
        _ => None,
    }
}

/// Field `name` of `v` as an array, when it is one.
pub open spec fn json_arr(v: JsonValue, name: Seq<char>) -> Option<Seq<JsonValue>> {
    match json_get(v, name) {
        Some(JsonValue::Arr(a)) => Some(a@),
        _ => None,
    }
}

/// Optional string field: `Some(None)` when absent or null, `Some(Some(s))`
/// when a string, `None` when present with any other shape.
pub open spec fn json_opt_str(v: JsonValue, name: Seq<char>) -> Option<Option<Seq<char>>> {
    match json_get(v, name) {
        Option::None => Some(None),
        Option::Some(JsonValue::Null) => Some(None),
        Option::Some(JsonValue::Str(s)) => Some(Some(s@)),
        Option::Some(_) => None,
    }
}

/// Optional unsigned-integer field, on the same pattern as [`json_opt_str`].
pub open spec fn json_opt_u64(v: JsonValue, name: Seq<char>) -> Option<Option<u64>> {
    match json_get(v, name) {
        Option::None => Some(None),
        Option::Some(JsonValue::Null) => Some(None),
        Option::Some(JsonValue::UInt(n)) => Some(Some(n)),
        Option::Some(_) => None,
    }
}

/// Optional boolean field, on the same pattern as [`json_opt_str`].
pub open spec fn json_opt_bool(v: JsonValue, name: Seq<char>) -> Option<Option<bool>> {
    match json_get(v, name) {
        Option::None => Some(None),
        Option::Some(JsonValue::Null) => Some(None),
        Option::Some(JsonValue::Bool(b)) => Some(Some(b)),
        Option::Some(_) => None,
    }
}

/// True when `s` reads the same characters as `lit`.
pub fn string_is(s: &String, lit: &str) -> (r: bool)
    ensures
        r == (s@ == lit@),
{
    let owned: String = lit.to_owned();
    s.eq(&owned)
}

/// Field `name` of `v`, when `v` is an object that has it.
#[verifier::loop_isolation(false)]
pub fn get_field<'a>(v: &'a JsonValue, name: &str) -> (r: Option<&'a JsonValue>)
    ensures
        match r {
            Some(f) => json_get(*v, name@) == Some(*f),
            None => json_get(*v, name@) is None,
        },
{
    match v {
        JsonValue::Obj(fields) => {
            let n: usize = fields.len();
            let mut i: usize = 0;
            proof {
                assert(fields@.skip(0) =~= fields@);
            }
            while i < n
                invariant
                    n == fields@.len(),
                    0 <= i <= n,
                    obj_lookup(fields@, name@) == obj_lookup(fields@.skip(i as int), name@),
                decreases n - i,
            {
                if string_is(&fields[i].0, name) {
                    proof {
                        assert(fields@.skip(i as int)[0] == fields@[i as int]);
                        assert(obj_lookup(fields@.skip(i as int), name@) == Some(
                            fields@[i as int].1,
                        ));
                    }
                    return Some(&fields[i].1);
                }
                proof {
                    assert(fields@.skip(i as int).skip(1) =~= fields@.skip(i as int + 1));
                }
                i = i + 1;
            }
            None
        }
        _ => None,
    }
}

/// String field `name` of `v`, copied out.
pub fn get_str(v: &JsonValue, name: &str) -> (r: Option<String>)
    ensures
        r is Some <==> json_str(*v, name@) is Some,
        r matches Some(s) ==> json_str(*v, name@) == Some(s@),
{
    match get_field(v, name) {
        Some(JsonValue::Str(s)) => Some(s.clone()),
        _ => None,
    }
}

/// Unsigned-integer field `name` of `v`.
pub fn get_u64(v: &JsonValue, name: &str) -> (r: Option<u64>)
    ensures
        r == json_u64(*v, name@),
{
    match get_field(v, name) {
        Some(JsonValue::UInt(n)) => Some(*n),
        _ => None,
    }
}

/// Boolean field `name` of `v`.
pub fn get_bool(v: &JsonValue, name: &str) -> (r: Option<bool>)
    ensures
        r == json_bool(*v, name@),
{
    match get_field(v, name) {
        Some(JsonValue::Bool(b)) => Some(*b),
        _ => None,
    }
}

/// Array field `name` of `v`, borrowed.
pub fn get_arr<'a>(v: &'a JsonValue, name: &str) -> (r: Option<&'a Vec<JsonValue>>)
    ensures
        r is Some <==> json_arr(*v, name@) is Some,
        r matches Some(a) ==> json_arr(*v, name@) == Some(a@),
{
    match get_field(v, name) {
        Some(JsonValue::Arr(a)) => Some(a),
        _ => None,
    }
}

/// Optional string field `name` of `v`: absent or null reads as `Some(None)`,
/// any shape other than a string fails as `None`.
pub fn get_opt_str(v: &JsonValue, name: &str) -> (r: Option<Option<String>>)
    ensures
        match r {
            Option::None => json_opt_str(*v, name@) is None,
            Option::Some(Option::None) => json_opt_str(*v, name@) == Some(None::<Seq<char>>),
            Option::Some(Option::Some(s)) => json_opt_str(*v, name@) == Some(Some(s@)),
        },
{
    match get_field(v, name) {
        Option::None => Some(None),
        Option::Some(JsonValue::Null) => Some(None),
        Option::Some(JsonValue::Str(s)) => Some(Some(s.clone())),
        Option::Some(_) => None,
    }
}

/// Optional unsigned-integer field, on the same pattern as [`get_opt_str`].
pub fn get_opt_u64(v: &JsonValue, name: &str) -> (r: Option<Option<u64>>)
    ensures
        match r {
            Option::None => json_opt_u64(*v, name@) is None,
            Option::Some(o) => json_opt_u64(*v, name@) == Some(o),
        },
{
    match get_field(v, name) {
        Option::None => Some(None),
        Option::Some(JsonValue::Null) => Some(None),
        Option::Some(JsonValue::UInt(n)) => Some(Some(*n)),
        Option::Some(_) => None,
    }
}

/// Optional boolean field, on the same pattern as [`get_opt_str`].
pub fn get_opt_bool(v: &JsonValue, name: &str) -> (r: Option<Option<bool>>)
    ensures
        match r {
            Option::None => json_opt_bool(*v, name@) is None,
            Option::Some(o) => json_opt_bool(*v, name@) == Some(o),
        },
{
    match get_field(v, name) {
        Option::None => Some(None),
        Option::Some(JsonValue::Null) => Some(None),
        Option::Some(JsonValue::Bool(b)) => Some(Some(*b)),
        Option::Some(_) => None,
    }
}

} // verus!
