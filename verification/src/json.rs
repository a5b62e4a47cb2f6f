//! A mathematical model of JSON data, and the trusted surface over
//! `serde_json` through which the library reads and builds wire text.
//!
//! Every byte that crosses the gateway is JSON. The library does not
//! re-implement JSON itself: parsing and printing are `serde_json`'s
//! work, reached through the `external_body` wrappers below. What a
//! parsed value holds is described by the spec-level type [`JsonVal`],
//! so that every contract downstream can speak precisely about the
//! content of wire text.

use vstd::prelude::*;

verus! {

/// Spec-level model of a JSON value.
///
/// Numbers mirror how `serde_json` represents them: `UInt` stands for
/// an integer that fits `u64` (the only numbers this protocol reads),
/// `NegInt` for a negative integer, and `Float` for any other number;
/// the protocol logic never reads a float, so that variant carries no
/// payload. Objects are modelled as a map from key to value: key order
/// is not observable, and a repeated key keeps its last binding.
pub enum JsonVal {
    Null,
    Bool(bool),
    UInt(u64),
    NegInt(i64),
    Float,
    Str(Seq<char>),
    Arr(Seq<JsonVal>),
    Obj(Map<Seq<char>, JsonVal>),
}

/// Declares `serde_json::Value`, the opaque parsed-JSON type, so
/// that it can stand in signatures and fields; what a value holds is
/// spoken of through [`jmodel`].
#[verifier::external_type_specification]
#[verifier::external_body]
pub struct ExValue(serde_json::Value);

/// Declares `serde_json::Map`, the object map of `serde_json::Value`;
/// what a map holds is spoken of through [`obj_model`].
#[verifier::external_type_specification]
#[verifier::external_body]
#[verifier::reject_recursive_types(K)]
#[verifier::reject_recursive_types(V)]
pub struct ExJsonMap<K, V>(serde_json::Map<K, V>);

/// Whether JSON content stays within `n` levels of nesting: a
/// scalar is one level, and each object or array adds one around
/// its deepest member. `serde_json`'s parser enforces a nesting
/// allowance, so the serializer's round-trip promise below is stated
/// under this bound; everything this crate builds is far within it.
pub open spec fn nested_within(j: JsonVal, n: nat) -> bool
    decreases j,
{
    match j {
        JsonVal::Obj(m) => 1 <= n && forall|k: Seq<char>|
            m.contains_key(k) ==> nested_within(#[trigger] m[k], (n - 1) as nat),
        JsonVal::Arr(a) => 1 <= n && forall|i: int|
            0 <= i < a.len() ==> nested_within(#[trigger] a[i], (n - 1) as nat),
        _ => 1 <= n,
    }
}

/// The JSON content held by a `serde_json::Value`.
pub uninterp spec fn jmodel(v: serde_json::Value) -> JsonVal;

/// The bindings held by a `serde_json::Map` (the object map of
/// `serde_json::Value`), as a map from key text to content.
pub uninterp spec fn obj_model(m: serde_json::Map<String, serde_json::Value>) -> Map<
    Seq<char>,
    JsonVal,
>;

/// What `serde_json::from_str::<Value>` returns on given text: `None`
/// where the text is not well-formed JSON, otherwise the content of
/// the parsed value.
pub uninterp spec fn json_parse(s: Seq<char>) -> Option<JsonVal>;

/// Relies on `serde_json::from_str::<Value>`: it succeeds exactly on
/// well-formed JSON text, and the result of a parse is a function of
/// the text alone.
#[verifier::external_body]
pub(crate) fn json_from_text(s: &str) -> (r: Option<serde_json::Value>)
    ensures
        r is Some <==> json_parse(s@) is Some,
        r matches Some(v) ==> json_parse(s@) == Some(jmodel(v)),
{
    serde_json::from_str(s).ok()
}

/// Relies on `serde_json::to_string`: serializing a `Value` cannot
/// fail (its maps are string-keyed and its numbers are finite), and
/// parsing the produced text yields an equal value. The parser
/// allows 128 nested containers, so the round trip is promised only
/// for values within that allowance; every value this crate
/// serializes is a handful of levels deep.
#[verifier::external_body]
pub(crate) fn json_to_text(v: &serde_json::Value) -> (r: String)
    requires
        nested_within(jmodel(*v), 128),
    ensures
        json_parse(r@) == Some(jmodel(*v)),
{
    serde_json::to_string(v).expect("serializing a Value cannot fail")
}

/// Relies on `serde_json::Value::get` with a string index: on an
/// object it looks the key up, on anything else it returns `None`.
#[verifier::external_body]
pub(crate) fn json_get<'a>(v: &'a serde_json::Value, key: &str) -> (r: Option<
    &'a serde_json::Value,
>)
    ensures
        match jmodel(*v) {
            JsonVal::Obj(m) => {
                &&& r is Some <==> m.contains_key(key@)
                &&& (r matches Some(x) ==> m.contains_key(key@) && jmodel(*x) == m[key@])
            },
            _ => r is None,
        },
{
    v.get(key)
}

/// Relies on `serde_json::Value::as_u64`: `Some` exactly for numbers
/// that `serde_json` holds as unsigned integers.
#[verifier::external_body]
pub(crate) fn json_as_u64(v: &serde_json::Value) -> (r: Option<u64>)
    ensures
        r == match jmodel(*v) {
            JsonVal::UInt(n) => Some(n),
            _ => None::<u64>,
        },
{
    v.as_u64()
}

/// Relies on `serde_json::Value::as_str`: `Some` exactly for strings.
#[verifier::external_body]
pub(crate) fn json_as_str<'a>(v: &'a serde_json::Value) -> (r: Option<&'a str>)
    ensures
        r is Some <==> jmodel(*v) is Str,
        r matches Some(s) ==> jmodel(*v) == JsonVal::Str(s@),
{
    v.as_str()
}

/// Relies on `serde_json::Value::is_null`.
#[verifier::external_body]
pub(crate) fn json_is_null(v: &serde_json::Value) -> (r: bool)
    ensures
        r == (jmodel(*v) is Null),
{
    v.is_null()
}

/// Relies on `<serde_json::Value as Clone>::clone`: the clone holds
/// the same content.
#[verifier::external_body]
pub(crate) fn json_clone(v: &serde_json::Value) -> (r: serde_json::Value)
    ensures
        jmodel(r) == jmodel(*v),
{
    v.clone()
}

/// Relies on the `serde_json::Value::Null` constructor.
#[verifier::external_body]
pub(crate) fn json_null() -> (r: serde_json::Value)
    ensures
        jmodel(r) == JsonVal::Null,
{
    serde_json::Value::Null
}

/// Relies on the `serde_json::Value::Bool` constructor.
#[verifier::external_body]
pub(crate) fn json_bool(b: bool) -> (r: serde_json::Value)
    ensures
        jmodel(r) == JsonVal::Bool(b),
{
    serde_json::Value::Bool(b)
}

/// Relies on `serde_json::Value::from::<u64>`: a `u64` becomes an
/// unsigned JSON number.
#[verifier::external_body]
pub(crate) fn json_uint(n: u64) -> (r: serde_json::Value)
    ensures
        jmodel(r) == JsonVal::UInt(n),
{
    serde_json::Value::from(n)
}

/// Relies on the `serde_json::Value::String` constructor.
#[verifier::external_body]
pub(crate) fn json_string(s: String) -> (r: serde_json::Value)
    ensures
        jmodel(r) == JsonVal::Str(s@),
{
    serde_json::Value::String(s)
}

/// The empty JSON object content.
pub open spec fn empty_obj() -> Map<Seq<char>, JsonVal> {
    Map::empty()
}

/// Relies on `serde_json::Map::new`: the new object map is empty.
#[verifier::external_body]
pub(crate) fn json_obj_new() -> (r: serde_json::Map<String, serde_json::Value>)
    ensures
        obj_model(r) == empty_obj(),
{
    serde_json::Map::new()
}

/// Relies on `serde_json::Map::insert`: it binds the key to the
/// value, replacing any earlier binding.
#[verifier::external_body]
pub(crate) fn json_obj_insert(
    m: &mut serde_json::Map<String, serde_json::Value>,
    key: String,
    v: serde_json::Value,
)
    ensures
        obj_model(*final(m)) == obj_model(*old(m)).insert(key@, jmodel(v)),
{
    m.insert(key, v);
}

/// Relies on the `serde_json::Value::Object` constructor.
#[verifier::external_body]
pub(crate) fn json_object(m: serde_json::Map<String, serde_json::Value>) -> (r:
    serde_json::Value)
    ensures
        jmodel(r) == JsonVal::Obj(obj_model(m)),
{
    serde_json::Value::Object(m)
}

} // verus!
