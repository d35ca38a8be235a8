//! The value tree that both text formats parse to, and the calls into the
//! parsers.
//!
//! A parsed document is a `serde_json::Value`, whichever format it was
//! written in. Verified code never looks inside one: it reads and builds
//! values through the functions below, whose contracts are stated over
//! [`JsonView`] and are taken on trust from the parsers' sources.

use vstd::prelude::*;
use vstd::utf8::{encode_utf8, valid_utf8};

verus! {

/// A parsed value of either text format.
#[verifier::external_type_specification]
#[verifier::external_body]
pub struct ExJsonValue(serde_json::Value);

/// What a value tree holds.
pub enum JsonView {
    Null,
    Bool(bool),
    /// A number that is held as an integer.
    Integer(int),
    /// A number that is held in binary floating point, by its 64 bits.
    Real(u64),
    Text(Seq<char>),
    /// The items of a list, in order.
    List(Seq<JsonView>),
    /// The members of an object, by their names.
    Object(Map<Seq<char>, JsonView>),
}

/// The tree that a `serde_json::Value` holds.
pub uninterp spec fn json_view(v: serde_json::Value) -> JsonView;

/// What `serde_json::from_str` makes of a text: the tree, or the printed
/// form of its failure.
pub uninterp spec fn json_parsed(text: Seq<char>) -> Result<JsonView, Seq<char>>;

/// What `serde_yaml::from_str` makes of a text: the tree, or nothing where
/// it fails.
pub uninterp spec fn yaml_parsed(text: Seq<char>) -> Option<JsonView>;

/// The compact JSON text that `serde_json::to_string` writes for a tree.
pub uninterp spec fn json_text(j: JsonView) -> Seq<char>;

/// `serde_json::from_str` into a `serde_json::Value`, its failure printed.
/// The outcome depends on the text alone, so it is named: [`json_parsed`].
#[verifier::external_body]
pub(crate) fn parse_json(text: &str) -> (r: Result<serde_json::Value, String>)
    ensures
        match r {
            Ok(v) => json_parsed(text@) == Ok::<JsonView, Seq<char>>(json_view(v)),
            Err(m) => json_parsed(text@) == Err::<JsonView, Seq<char>>(m@),
        },
{
    serde_json::from_str::<serde_json::Value>(text).map_err(|e| e.to_string())
}

/// `serde_yaml::from_str` into a `serde_json::Value`, its failure dropped.
/// The outcome depends on the text alone, so it is named: [`yaml_parsed`].
#[verifier::external_body]
pub(crate) fn parse_yaml(text: &str) -> (r: Option<serde_json::Value>)
    ensures
        match r {
            Some(v) => yaml_parsed(text@) == Some(json_view(v)),
            None => yaml_parsed(text@) is None,
        },
{
    serde_yaml::from_str::<serde_json::Value>(text).ok()
}

/// `serde_json::to_string` of a value, its failure dropped. The call is
/// documented to fail only where an impl of `Serialize` decides to fail or a
/// map has a key that is no string. The impl of `Value` fails nowhere of
/// itself and the keys of its objects are strings, so a text always comes
/// back. The text depends on the tree alone, so it is named: [`json_text`].
#[verifier::external_body]
pub(crate) fn print_json(v: &serde_json::Value) -> (r: Option<String>)
    ensures
        r is Some,
        r->Some_0@ == json_text(json_view(*v)),
{
    serde_json::to_string(v).ok()
}

/// `std::str::from_utf8`, its failure dropped: it fails exactly on bytes that
/// are not well-formed UTF-8, and else gives the text that those bytes
/// encode.
#[verifier::external_body]
pub(crate) fn utf8_text(bytes: &[u8]) -> (r: Option<&str>)
    ensures
        r is Some <==> valid_utf8(bytes@),
        r matches Some(text) ==> encode_utf8(text@) == bytes@,
{
    std::str::from_utf8(bytes).ok()
}

/// `serde_json::Value::is_null`.
#[verifier::external_body]
pub(crate) fn json_is_null(v: &serde_json::Value) -> (r: bool)
    ensures
        r == (json_view(*v) is Null),
{
    v.is_null()
}

/// `serde_json::Value::is_object`.
#[verifier::external_body]
pub(crate) fn json_is_object(v: &serde_json::Value) -> (r: bool)
    ensures
        r == (json_view(*v) is Object),
{
    v.is_object()
}

/// `serde_json::Value::get` with a string key: the member of an object under
/// that key, and nothing for a missing key or a value that is no object.
#[verifier::external_body]
pub(crate) fn json_get<'a>(v: &'a serde_json::Value, key: &str) -> (r: Option<
    &'a serde_json::Value,
>)
    ensures
        match json_view(*v) {
            JsonView::Object(m) => if m.contains_key(key@) {
                r is Some && json_view(*r.unwrap()) == m[key@]
            } else {
                r is None
            },
            _ => r is None,
        },
{
    v.get(key)
}

/// `serde_json::Value::as_bool`.
#[verifier::external_body]
pub(crate) fn json_as_bool(v: &serde_json::Value) -> (r: Option<bool>)
    ensures
        r == match json_view(*v) {
            JsonView::Bool(b) => Some(b),
            _ => None,
        },
{
    v.as_bool()
}

/// `serde_json::Value::as_i64`: the number, where the value is an integer
/// that fits in 64 signed bits.
#[verifier::external_body]
pub(crate) fn json_as_i64(v: &serde_json::Value) -> (r: Option<i64>)
    ensures
        r == match json_view(*v) {
            JsonView::Integer(n) => if i64::MIN <= n <= i64::MAX {
                Some(n as i64)
            } else {
                None
            },
            _ => None,
        },
{
    v.as_i64()
}

/// `serde_json::Value::as_str`.
#[verifier::external_body]
pub(crate) fn json_as_str<'a>(v: &'a serde_json::Value) -> (r: Option<&'a str>)
    ensures
        match json_view(*v) {
            JsonView::Text(s) => r is Some && r.unwrap()@ == s,
            _ => r is None,
        },
{
    v.as_str()
}

/// `serde_json::Value::as_array`: the items of a list, in order.
#[verifier::external_body]
pub(crate) fn json_as_array<'a>(v: &'a serde_json::Value) -> (r: Option<&'a Vec<serde_json::Value>>)
    ensures
        match json_view(*v) {
            JsonView::List(items) => r is Some && views_of(r.unwrap()@) == items,
            _ => r is None,
        },
{
    v.as_array()
}

/// `Clone` of `serde_json::Value`: the same tree.
#[verifier::external_body]
pub(crate) fn json_clone(v: &serde_json::Value) -> (r: serde_json::Value)
    ensures
        json_view(r) == json_view(*v),
{
    v.clone()
}

/// `From<bool>` of `serde_json::Value`.
#[verifier::external_body]
pub(crate) fn json_from_bool(b: bool) -> (r: serde_json::Value)
    ensures
        json_view(r) == JsonView::Bool(b),
{
    serde_json::Value::from(b)
}

/// `From<i32>` of `serde_json::Value`: an integer number.
#[verifier::external_body]
pub(crate) fn json_from_i32(n: i32) -> (r: serde_json::Value)
    ensures
        json_view(r) == JsonView::Integer(n as int),
{
    serde_json::Value::from(n)
}

/// `From<&str>` of `serde_json::Value`.
#[verifier::external_body]
pub(crate) fn json_from_str(s: &str) -> (r: serde_json::Value)
    ensures
        json_view(r) == JsonView::Text(s@),
{
    serde_json::Value::from(s)
}

/// `From<Vec<Value>>` of `serde_json::Value`: a list of the items, in order.
#[verifier::external_body]
pub(crate) fn json_from_vec(items: Vec<serde_json::Value>) -> (r: serde_json::Value)
    ensures
        json_view(r) == JsonView::List(views_of(items@)),
{
    serde_json::Value::from(items)
}

/// `serde_json::Value::Object` of `serde_json::Map::new`: an object without
/// members.
#[verifier::external_body]
pub(crate) fn json_object() -> (r: serde_json::Value)
    ensures
        json_view(r) == JsonView::Object(Map::<Seq<char>, JsonView>::empty()),
{
    serde_json::Value::Object(serde_json::Map::new())
}

/// Assignment through `IndexMut<&str>` of `serde_json::Value`: on an object,
/// the member under the key is set and the others stay. It panics on a list
/// or a scalar, which are left out.
#[verifier::external_body]
pub(crate) fn json_set(obj: &mut serde_json::Value, key: &str, value: serde_json::Value)
    requires
        json_view(*old(obj)) is Object,
    ensures
        json_view(*final(obj)) == JsonView::Object(
            json_view(*old(obj))->Object_0.insert(key@, json_view(value)),
        ),
{
    obj[key] = value;
}

/// The trees of a run of values, in order.
pub open spec fn views_of(values: Seq<serde_json::Value>) -> Seq<JsonView> {
    values.map_values(|v: serde_json::Value| json_view(v))
}

} // verus!
