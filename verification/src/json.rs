//! JSON values as the library reads them, parsed by `serde_json`, and the
//! lookups and typed reads that the response parsers are built from.

use vstd::prelude::*;

use crate::strings::str_equal;

verus! {

/// A JSON number as `serde_json` stores it: a non-negative integer, a
/// negative integer, or a floating-point number (whose value the library
/// never reads).
#[derive(Debug, Clone, Copy, PartialEq, Eq, Structural)]
pub enum JsonNumber {
    PosInt(u64),
    NegInt(i64),
    Float,
}

/// A JSON value. Objects keep their fields in order, each key once.
#[derive(Debug)]
pub enum Json {
    Null,
    Bool(bool),
    Number(JsonNumber),
    Str(String),
    Array(Vec<Json>),
    Object(Vec<(String, Json)>),
}

/// The value that `serde_json` parses from a text, where the text is JSON.
pub uninterp spec fn json_of_text(text: Seq<char>) -> Option<Json>;

#[verifier::external_type_specification]
#[verifier::external_body]
pub struct ExJsonValue(serde_json::Value);

#[verifier::external_type_specification]
#[verifier::external_body]
pub struct ExJsonNumber(serde_json::Number);

/// Converts a `serde_json::Number` by what `Number::as_u64` and
/// `Number::as_i64` read of it.
#[verifier::external_body]
fn json_number(n: &serde_json::Number) -> JsonNumber {
    match (n.as_u64(), n.as_i64()) {
        (Some(u), _) => JsonNumber::PosInt(u),
        (None, Some(i)) => JsonNumber::NegInt(i),
        (None, None) => JsonNumber::Float,
    }
}

/// Converts a `serde_json::Value` into the library's own JSON value, variant
/// by variant.
#[verifier::external_body]
fn json_from_value(v: &serde_json::Value) -> Json {
    match v {
        serde_json::Value::Null => Json::Null,
        serde_json::Value::Bool(b) => Json::Bool(*b),
        serde_json::Value::Number(n) => Json::Number(json_number(n)),
        serde_json::Value::String(s) => Json::Str(s.clone()),
        serde_json::Value::Array(a) => Json::Array(a.iter().map(json_from_value).collect()),
        serde_json::Value::Object(o) => Json::Object(
            o.iter().map(|(k, v)| (k.clone(), json_from_value(v))).collect(),
        ),
    }
}

/// `serde_json::from_str::<serde_json::Value>`: the JSON value of a text, or
/// `None` where the text is not JSON.
#[verifier::external_body]
pub(crate) fn parse_json(text: &str) -> (r: Option<Json>)
    ensures
        r == json_of_text(text@),
{
    serde_json::from_str::<serde_json::Value>(text).ok().map(|v| json_from_value(&v))
}

/// The value of the first field of `fields` named `k`.
pub open spec fn lookup(fields: Seq<(String, Json)>, k: Seq<char>) -> Option<Json>
    decreases fields.len(),
{
    if fields.len() == 0 {
        None
    } else if fields[0].0@ == k {
        Some(fields[0].1)
    } else {
        lookup(fields.subrange(1, fields.len() as int), k)
    }
}

/// The field `k` of an object; nothing for any other value.
pub open spec fn field(j: Json, k: Seq<char>) -> Option<Json> {
    match j {
        Json::Object(fs) => lookup(fs@, k),
        _ => None,
    }
}

/// The field `k` of a value that may be missing.
pub open spec fn field_of(o: Option<Json>, k: Seq<char>) -> Option<Json> {
    match o {
        Some(j) => field(j, k),
        None => None,
    }
}

/// The value at a path of one key.
pub open spec fn path1(j: Json, a: Seq<char>) -> Option<Json> {
    field(j, a)
}

/// The value at a path of two keys.
pub open spec fn path2(j: Json, a: Seq<char>, b: Seq<char>) -> Option<Json> {
    field_of(field(j, a), b)
}

/// The value at a path of three keys.
pub open spec fn path3(j: Json, a: Seq<char>, b: Seq<char>, c: Seq<char>) -> Option<Json> {
    field_of(field_of(field(j, a), b), c)
}

/// A number read as `i64`, as serde reads it: integers in range only.
pub open spec fn as_i64(o: Option<Json>) -> Option<i64> {
    match o {
        Some(Json::Number(JsonNumber::PosInt(u))) => if u <= i64::MAX {
            Some(u as i64)
        } else {
            None
        },
        Some(Json::Number(JsonNumber::NegInt(i))) => Some(i),
        _ => None,
    }
}

/// A number read as `u64`, as serde reads it: integers in range only.
pub open spec fn as_u64(o: Option<Json>) -> Option<u64> {
    match o {
        Some(Json::Number(JsonNumber::PosInt(u))) => Some(u),
        Some(Json::Number(JsonNumber::NegInt(i))) => if i >= 0 {
            Some(i as u64)
        } else {
            None
        },
        _ => None,
    }
}

/// A number read as `i32`, as serde reads it: integers in range only.
pub open spec fn as_i32(o: Option<Json>) -> Option<i32> {
    match as_i64(o) {
        Some(i) => if i32::MIN <= i <= i32::MAX {
            Some(i as i32)
        } else {
            None
        },
        None => None,
    }
}

/// A number read as `u32`, as serde reads it: integers in range only.
pub open spec fn as_u32(o: Option<Json>) -> Option<u32> {
    match as_u64(o) {
        Some(u) => if u <= u32::MAX {
            Some(u as u32)
        } else {
            None
        },
        None => None,
    }
}

/// A boolean.
pub open spec fn as_bool(o: Option<Json>) -> Option<bool> {
    match o {
        Some(Json::Bool(b)) => Some(b),
        _ => None,
    }
}

/// A string, as its characters.
pub open spec fn as_text(o: Option<Json>) -> Option<Seq<char>> {
    match o {
        Some(Json::Str(s)) => Some(s@),
        _ => None,
    }
}

/// An array, as its elements.
pub open spec fn as_array(o: Option<Json>) -> Option<Seq<Json>> {
    match o {
        Some(Json::Array(v)) => Some(v@),
        _ => None,
    }
}

/// The value behind a reference that may be missing.
pub open spec fn deref_opt(o: Option<&Json>) -> Option<Json> {
    match o {
        Some(j) => Some(*j),
        None => None,
    }
}

impl Json {
    /// The field `k` of an object; nothing for any other value.
    pub fn get(&self, k: &str) -> (r: Option<&Json>)
        ensures
            deref_opt(r) == field(*self, k@),
    {
        match self {
            Json::Object(fields) => {
                let n = fields.len();
                let mut i: usize = 0;
                assert(fields@.subrange(0, n as int) =~= fields@);
                assert(field(*self, k@) == lookup(fields@, k@));
                while i < n
                    invariant
                        n == fields@.len(),
                        i <= n,
                        lookup(fields@.subrange(i as int, n as int), k@) == lookup(fields@, k@),
                        field(*self, k@) == lookup(fields@, k@),
                    decreases n - i,
                {
                    let ghost rest = fields@.subrange(i as int, n as int);
                    assert(rest.subrange(1, rest.len() as int) =~= fields@.subrange(
                        i + 1,
                        n as int,
                    ));
                    assert(rest[0] == fields@[i as int]);
                    if str_equal(fields[i].0.as_str(), k) {
                        return Some(&fields[i].1);
                    }
                    i = i + 1;
                }
                None
            },
            _ => None,
        }
    }
}

/// The field `k` of a value that may be missing.
pub fn get_of<'a>(o: Option<&'a Json>, k: &str) -> (r: Option<&'a Json>)
    ensures
        deref_opt(r) == field_of(deref_opt(o), k@),
{
    match o {
        Some(j) => j.get(k),
        None => None,
    }
}

/// Reads a number as `i64`.
pub fn read_i64(o: Option<&Json>) -> (r: Option<i64>)
    ensures
        r == as_i64(deref_opt(o)),
{
    match o {
        Some(Json::Number(JsonNumber::PosInt(u))) => if *u <= 0x7fff_ffff_ffff_ffffu64 {
            Some(*u as i64)
        } else {
            None
        },
        Some(Json::Number(JsonNumber::NegInt(i))) => Some(*i),
        _ => None,
    }
}

/// Reads a number as `u64`.
pub fn read_u64(o: Option<&Json>) -> (r: Option<u64>)
    ensures
        r == as_u64(deref_opt(o)),
{
    match o {
        Some(Json::Number(JsonNumber::PosInt(u))) => Some(*u),
        Some(Json::Number(JsonNumber::NegInt(i))) => if *i >= 0 {
            Some(*i as u64)
        } else {
            None
        },
        _ => None,
    }
}

/// Reads a number as `i32`.
pub fn read_i32(o: Option<&Json>) -> (r: Option<i32>)
    ensures
        r == as_i32(deref_opt(o)),
{
    match read_i64(o) {
        Some(i) => if -0x8000_0000i64 <= i && i <= 0x7fff_ffffi64 {
            Some(i as i32)
        } else {
            None
        },
        None => None,
    }
}

/// Reads a number as `u32`.
pub fn read_u32(o: Option<&Json>) -> (r: Option<u32>)
    ensures
        r == as_u32(deref_opt(o)),
{
    match read_u64(o) {
        Some(u) => if u <= 0xffff_ffffu64 {
            Some(u as u32)
        } else {
            None
        },
        None => None,
    }
}

/// Reads a boolean.
pub fn read_bool(o: Option<&Json>) -> (r: Option<bool>)
    ensures
        r == as_bool(deref_opt(o)),
{
    match o {
        Some(Json::Bool(b)) => Some(*b),
        _ => None,
    }
}

/// Reads a string.
pub fn read_string(o: Option<&Json>) -> (r: Option<String>)
    ensures
        match r {
            Some(s) => as_text(deref_opt(o)) == Some(s@),
            None => as_text(deref_opt(o)) is None,
        },
{
    match o {
        Some(Json::Str(s)) => Some(s.clone()),
        _ => None,
    }
}

/// Reads an array.
pub fn read_array(o: Option<&Json>) -> (r: Option<&Vec<Json>>)
    ensures
        match r {
            Some(v) => as_array(deref_opt(o)) == Some(v@),
            None => as_array(deref_opt(o)) is None,
        },
{
    match o {
        Some(Json::Array(v)) => Some(v),
        _ => None,
    }
}

} // verus!
