//! A plain model of a parsed JSON document, the accessors the tool-argument
//! readers use (`get`, `as_str`, `as_u64`, …), and the one place raw request
//! bytes are parsed into it.

use vstd::prelude::*;

use crate::text::{copy_str, str_eq};

verus! {

/// A JSON value. Numbers are held as the integer kinds the library reads;
/// a number with a fraction or exponent is `Fractional`, kept as serde_json
/// writes it (so it is echoed back unchanged; its value is never read here).
pub enum Json {
    Null,
    Bool(bool),
    /// A non-negative integer.
    UInt(u64),
    /// A negative integer.
    NegInt(i64),
    /// A number that is neither a `u64` nor an `i64`, as serde_json writes
    /// it.
    Fractional(String),
    Str(String),
    Array(Vec<Json>),
    /// Members with distinct keys. A document read by [`read_json`] lists
    /// them in key order (serde_json's default map sorts its keys); one built
    /// here keeps the order it was built in.
    Object(Vec<(String, Json)>),
}

/// The value stored under `key` in an object member list (first match).
pub open spec fn member(members: Seq<(String, Json)>, key: Seq<char>) -> Option<Json>
    decreases members.len(),
{
    if members.len() == 0 {
        None
    } else if members[0].0@ == key {
        Some(members[0].1)
    } else {
        member(members.drop_first(), key)
    }
}

/// `value[key]` when `value` is an object holding `key`.
pub open spec fn field(value: Json, key: Seq<char>) -> Option<Json> {
    match value {
        Json::Object(members) => member(members@, key),
        _ => None,
    }
}

/// The string held by `v`, if it is a string.
pub open spec fn str_of(v: Option<Json>) -> Option<Seq<char>> {
    match v {
        Some(Json::Str(s)) => Some(s@),
        _ => None,
    }
}

/// `as_u64`: a non-negative integer.
pub open spec fn u64_of(v: Option<Json>) -> Option<u64> {
    match v {
        Some(Json::UInt(n)) => Some(n),
        _ => None,
    }
}

/// `as_i64`: any integer that fits an `i64`.
pub open spec fn i64_of(v: Option<Json>) -> Option<i64> {
    match v {
        Some(Json::UInt(n)) => if n <= i64::MAX {
            Some(n as i64)
        } else {
            None
        },
        Some(Json::NegInt(n)) => Some(n),
        _ => None,
    }
}

/// `as_bool`.
pub open spec fn bool_of(v: Option<Json>) -> Option<bool> {
    match v {
        Some(Json::Bool(b)) => Some(b),
        _ => None,
    }
}

/// Absent or an explicit `null`.
pub open spec fn absent_or_null(v: Option<Json>) -> bool {
    match v {
        None => true,
        Some(Json::Null) => true,
        _ => false,
    }
}

impl Json {
    /// A reference to the value stored under `key`, if `self` is an object
    /// holding it.
    pub fn get<'a>(&'a self, key: &str) -> (r: Option<&'a Json>)
        ensures
            r matches Some(v) ==> field(*self, key@) == Some(*v),
            r is None ==> field(*self, key@) is None,
    {
        match self {
            Json::Object(members) => {
                let mut i: usize = 0;
                assert(members@.skip(0) == members@);
                while i < members.len()
                    invariant
                        i <= members@.len(),
                        field(*self, key@) == member(members@, key@),
                        member(members@, key@) == member(members@.skip(i as int), key@),
                    decreases members.len() - i,
                {
                    assert(members@.skip(i as int).drop_first() == members@.skip(i + 1));
                    let ghost rest = members@.skip(i as int);
                    assert(rest[0] == members@[i as int]);
                    let entry = &members[i];
                    if str_eq(entry.0.as_str(), key) {
                        assert(member(rest, key@) == Some(entry.1));
                        return Some(&entry.1);
                    }
                    i = i + 1;
                }
                None
            },
            _ => None,
        }
    }
}

/// A copy of the string stored under `key`.
pub fn get_str(value: &Json, key: &str) -> (r: Option<String>)
    ensures
        r matches Some(s) ==> str_of(field(*value, key@)) == Some(s@),
        r is None ==> str_of(field(*value, key@)) is None,
{
    match value.get(key) {
        Some(Json::Str(s)) => Some(copy_str(s.as_str())),
        _ => None,
    }
}

/// The non-negative integer stored under `key`.
pub fn get_u64(value: &Json, key: &str) -> (r: Option<u64>)
    ensures
        r == u64_of(field(*value, key@)),
{
    match value.get(key) {
        Some(Json::UInt(n)) => Some(*n),
        _ => None,
    }
}

/// The integer stored under `key`, if it fits an `i64`.
pub fn get_i64(value: &Json, key: &str) -> (r: Option<i64>)
    ensures
        r == i64_of(field(*value, key@)),
{
    match value.get(key) {
        Some(Json::UInt(n)) => if *n <= 9223372036854775807u64 {
            Some(*n as i64)
        } else {
            None
        },
        Some(Json::NegInt(n)) => Some(*n),
        _ => None,
    }
}

/// The boolean stored under `key`.
pub fn get_bool(value: &Json, key: &str) -> (r: Option<bool>)
    ensures
        r == bool_of(field(*value, key@)),
{
    match value.get(key) {
        Some(Json::Bool(b)) => Some(*b),
        _ => None,
    }
}

/// Whether `key` is absent or `null`.
pub fn is_absent_or_null(value: &Json, key: &str) -> (r: bool)
    ensures
        r == absent_or_null(field(*value, key@)),
{
    match value.get(key) {
        None => true,
        Some(Json::Null) => true,
        _ => false,
    }
}

// ---------------------------------------------------------------------------
// Parsing raw bytes
// ---------------------------------------------------------------------------

#[verifier::external_type_specification]
#[verifier::external_body]
pub struct ExSerdeJsonValue(serde_json::Value);

/// What `serde_json::from_slice::<serde_json::Value>` makes of `bytes`, read
/// into [`Json`]: `None` when the bytes are not a JSON document.
pub uninterp spec fn parsed_json(bytes: Seq<u8>) -> Option<Json>;

/// Reads a `serde_json::Value` into [`Json`], variant for variant; a number
/// becomes `UInt` when `as_u64` holds it, else `NegInt` when `as_i64` does,
/// else `Fractional` with serde_json's text of the number.
#[verifier::external_body]
fn json_from_serde(v: serde_json::Value) -> Json {
    match v {
        serde_json::Value::Null => Json::Null,
        serde_json::Value::Bool(b) => Json::Bool(b),
        serde_json::Value::Number(n) => match (n.as_u64(), n.as_i64()) {
            (Some(u), _) => Json::UInt(u),
            (None, Some(i)) => Json::NegInt(i),
            (None, None) => Json::Fractional(n.to_string()),
        },
        serde_json::Value::String(s) => Json::Str(s),
        serde_json::Value::Array(a) => Json::Array(a.into_iter().map(json_from_serde).collect()),
        serde_json::Value::Object(o) => Json::Object(
            o.into_iter().map(|(k, v)| (k, json_from_serde(v))).collect(),
        ),
    }
}

/// `serde_json::from_slice::<serde_json::Value>(bytes)`, read into [`Json`];
/// `None` when serde_json rejects the bytes. The result is named, not
/// described: it is whatever serde_json's parser makes of these bytes.
#[verifier::external_body]
pub(crate) fn parse_json(bytes: &[u8]) -> (r: Option<Json>)
    ensures
        r == parsed_json(bytes@),
{
    serde_json::from_slice::<serde_json::Value>(bytes).ok().map(json_from_serde)
}

/// A JSON document read from raw bytes (a request body, a tool's
/// arguments), or `None` when the bytes are not JSON.
pub fn read_json(bytes: &[u8]) -> (r: Option<Json>)
    ensures
        r == parsed_json(bytes@),
{
    parse_json(bytes)
}

/// What `serde_json::from_str::<Vec<String>>` makes of `s`: the list of
/// strings, or `None` when `s` is not a JSON array of strings.
pub uninterp spec fn parsed_string_list(s: Seq<char>) -> Option<Seq<Seq<char>>>;

/// `serde_json::from_str::<Vec<String>>(s)`; `None` on any error.
#[verifier::external_body]
pub(crate) fn parse_string_list(s: &str) -> (r: Option<Vec<String>>)
    ensures
        r matches Some(v) ==> parsed_string_list(s@) == Some(crate::text::views(v@)),
        r is None ==> parsed_string_list(s@) is None,
{
    serde_json::from_str::<Vec<String>>(s).ok()
}

/// What `serde_json::to_string::<Vec<String>>` makes of a list of strings:
/// the JSON text, or `None` where serde_json reports an error.
pub uninterp spec fn encoded_string_list(items: Seq<Seq<char>>) -> Option<Seq<char>>;

/// `serde_json::to_string(items)`. serde_json writes a list of strings into
/// an in-memory buffer, which never fails, so the result is always `Some`.
#[verifier::external_body]
pub(crate) fn encode_string_list(items: &Vec<String>) -> (r: Option<String>)
    ensures
        r is Some,
        r matches Some(t) ==> encoded_string_list(crate::text::views(items@)) == Some(t@),
        r is None ==> encoded_string_list(crate::text::views(items@)) is None,
{
    serde_json::to_string(items).ok()
}

// ---------------------------------------------------------------------------
// Building documents
// ---------------------------------------------------------------------------

/// `j` is the JSON string `s`.
pub open spec fn is_text(j: Json, s: Seq<char>) -> bool {
    j matches Json::Str(t) && t@ == s
}

/// `j` is the JSON array of exactly these strings.
pub open spec fn is_texts(j: Json, items: Seq<Seq<char>>) -> bool {
    j matches Json::Array(a) && a@.len() == items.len() && forall|i: int|
        0 <= i < items.len() ==> #[trigger] is_text(a@[i], items[i])
}

/// The JSON number `n`.
pub open spec fn int_json(n: int) -> Json {
    if n >= 0 {
        Json::UInt(n as u64)
    } else {
        Json::NegInt(n as i64)
    }
}

/// The JSON string holding a copy of `s`.
pub fn text(s: &str) -> (r: Json)
    ensures
        is_text(r, s@),
{
    Json::Str(copy_str(s))
}

/// The JSON array of copies of `items`.
pub fn texts(items: &Vec<&str>) -> (r: Json)
    ensures
        is_texts(r, items@.map_values(|s: &str| s@)),
{
    let mut a: Vec<Json> = Vec::new();
    let mut i: usize = 0;
    while i < items.len()
        invariant
            i <= items@.len(),
            a@.len() == i,
            forall|j: int| 0 <= j < i ==> #[trigger] is_text(a@[j], items@[j]@),
        decreases items.len() - i,
    {
        a.push(text(items[i]));
        i = i + 1;
    }
    Json::Array(a)
}

/// The JSON number `n`.
pub fn int_value(n: i64) -> (r: Json)
    ensures
        r == int_json(n as int),
{
    if n >= 0 {
        Json::UInt(n as u64)
    } else {
        Json::NegInt(n)
    }
}

} // verus!
