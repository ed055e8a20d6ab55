//! A JSON document as the quota logic reads it.
//!
//! Numbers are held as the bit pattern of the `f64` a JSON reader gives for
//! them; a string is held together with the bits of the `f64` its trimmed
//! text reads as, when it reads as one. Those are the only two ways the logic
//! turns JSON into numbers.

use vstd::prelude::*;
use crate::double::{self, f64_bits_as_i64, f64_bits_is_finite};
use crate::text::str_eq;

verus! {

/// A JSON value. Object members keep their order; a key is looked up by its
/// first occurrence.
#[derive(Debug)]
pub enum Json {
    Null,
    Bool(bool),
    /// The bits of the double the number reads as.
    Number(u64),
    /// The text, and the bits of the double the text (trimmed of white space)
    /// reads as, if it reads as one.
    Str(String, Option<u64>),
    Array(Vec<Json>),
    Object(Vec<(String, Json)>),
}

/// The value of the first member named `key`.
pub open spec fn spec_entries_get(es: Seq<(String, Json)>, key: Seq<char>) -> Option<Json>
    decreases es.len(),
{
    if es.len() == 0 {
        None
    } else if es[0].0@ == key {
        Some(es[0].1)
    } else {
        spec_entries_get(es.drop_first(), key)
    }
}

/// Member `key` of an object; nothing for any other value.
pub open spec fn spec_get(v: Json, key: Seq<char>) -> Option<Json> {
    match v {
        Json::Object(es) => spec_entries_get(es@, key),
        _ => None,
    }
}

pub open spec fn spec_is_object(v: Json) -> bool {
    v is Object
}

pub open spec fn spec_as_str(v: Json) -> Option<Seq<char>> {
    match v {
        Json::Str(s, _) => Some(s@),
        _ => None,
    }
}

pub open spec fn spec_as_bool(v: Json) -> Option<bool> {
    match v {
        Json::Bool(b) => Some(b),
        _ => None,
    }
}

/// Truncating number-or-numeric-string coercion: a finite number, or a
/// string that reads as a double, truncated toward zero and saturated to
/// `i64` (a string reading as an infinity saturates, as NaN gives 0).
pub open spec fn spec_to_i64(v: Json) -> Option<i64> {
    match v {
        Json::Number(bits) => if double::f64_is_finite(bits) {
            Some(double::f64_as_i64(bits))
        } else {
            None
        },
        Json::Str(_, Some(bits)) => Some(double::f64_as_i64(bits)),
        _ => None,
    }
}

pub open spec fn opt_and_then_str(v: Option<Json>) -> Option<Seq<char>> {
    match v {
        Some(x) => spec_as_str(x),
        None => None,
    }
}

pub open spec fn opt_and_then_i64(v: Option<Json>) -> Option<i64> {
    match v {
        Some(x) => spec_to_i64(x),
        None => None,
    }
}

pub open spec fn opt_and_then_bool(v: Option<Json>) -> Option<bool> {
    match v {
        Some(x) => spec_as_bool(x),
        None => None,
    }
}

/// The value of the first key of `keys` that the object has.
pub open spec fn spec_first_present(v: Json, keys: Seq<Seq<char>>) -> Option<Json>
    decreases keys.len(),
{
    if keys.len() == 0 {
        None
    } else {
        match spec_get(v, keys[0]) {
            Some(x) => Some(x),
            None => spec_first_present(v, keys.drop_first()),
        }
    }
}

/// The views of a list of keys.
pub open spec fn key_views(keys: Seq<&str>) -> Seq<Seq<char>> {
    keys.map_values(|k: &str| k@)
}

/// Whether the value is an object.
pub fn is_object(v: &Json) -> (b: bool)
    ensures
        b == spec_is_object(*v),
{
    match v {
        Json::Object(_) => true,
        _ => false,
    }
}

/// Member `key` of an object (the first one of that name); `None` for any
/// other value or a missing key.
pub fn obj_get<'v>(v: &'v Json, key: &str) -> (r: Option<&'v Json>)
    ensures
        match r {
            Some(x) => spec_get(*v, key@) == Some(*x),
            None => spec_get(*v, key@) is None,
        },
{
    match v {
        Json::Object(es) => {
            let mut i: usize = 0;
            assert(es@.skip(0) =~= es@);
            assert(spec_get(*v, key@) == spec_entries_get(es@, key@));
            while i < es.len()
                invariant
                    i <= es@.len(),
                    spec_get(*v, key@) == spec_entries_get(es@, key@),
                    spec_entries_get(es@, key@) == spec_entries_get(es@.skip(i as int), key@),
                decreases es@.len() - i,
            {
                assert(es@.skip(i as int).drop_first() =~= es@.skip(i + 1));
                assert(es@.skip(i as int)[0] == es@[i as int]);
                if str_eq(es[i].0.as_str(), key) {
                    return Some(&es[i].1);
                }
                i = i + 1;
            }
            None
        },
        _ => None,
    }
}

/// The text of a string value.
pub fn as_str<'v>(v: &'v Json) -> (r: Option<&'v str>)
    ensures
        match r {
            Some(s) => spec_as_str(*v) == Some(s@),
            None => spec_as_str(*v) is None,
        },
{
    match v {
        Json::Str(s, _) => Some(s.as_str()),
        _ => None,
    }
}

/// The value of a boolean.
pub fn as_bool(v: &Json) -> (r: Option<bool>)
    ensures
        r == spec_as_bool(*v),
{
    match v {
        Json::Bool(b) => Some(*b),
        _ => None,
    }
}

/// Truncating number-or-numeric-string coercion to `i64`.
pub fn to_i64(v: &Json) -> (r: Option<i64>)
    ensures
        r == spec_to_i64(*v),
{
    match v {
        Json::Number(bits) => {
            if f64_bits_is_finite(*bits) {
                Some(f64_bits_as_i64(*bits))
            } else {
                None
            }
        },
        Json::Str(_, Some(bits)) => Some(f64_bits_as_i64(*bits)),
        _ => None,
    }
}

/// Member `key` read as a string.
pub fn get_str<'v>(v: &'v Json, key: &str) -> (r: Option<&'v str>)
    ensures
        match r {
            Some(s) => opt_and_then_str(spec_get(*v, key@)) == Some(s@),
            None => opt_and_then_str(spec_get(*v, key@)) is None,
        },
{
    match obj_get(v, key) {
        Some(x) => as_str(x),
        None => None,
    }
}

/// Member `key` coerced to `i64`.
pub fn get_i64(v: &Json, key: &str) -> (r: Option<i64>)
    ensures
        r == opt_and_then_i64(spec_get(*v, key@)),
{
    match obj_get(v, key) {
        Some(x) => to_i64(x),
        None => None,
    }
}

/// The value of the first of `keys` that the object has.
pub fn first_present<'v>(v: &'v Json, keys: &[&str]) -> (r: Option<&'v Json>)
    ensures
        match r {
            Some(x) => spec_first_present(*v, key_views(keys@)) == Some(*x),
            None => spec_first_present(*v, key_views(keys@)) is None,
        },
{
    let mut i: usize = 0;
    assert(key_views(keys@).skip(0) =~= key_views(keys@));
    while i < keys.len()
        invariant
            i <= keys@.len(),
            spec_first_present(*v, key_views(keys@)) == spec_first_present(
                *v,
                key_views(keys@).skip(i as int),
            ),
        decreases keys@.len() - i,
    {
        assert(key_views(keys@).skip(i as int).drop_first() =~= key_views(keys@).skip(i + 1));
        assert(key_views(keys@).skip(i as int)[0] == keys@[i as int]@);
        match obj_get(v, keys[i]) {
            Some(x) => {
                return Some(x);
            },
            None => {},
        }
        i = i + 1;
    }
    None
}

} // verus!
