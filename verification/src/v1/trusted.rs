//! What the library takes from `serde_json`, and on trust.
//!
//! Nothing in this file is proved. Each item states of one type or function
//! of `serde_json` what its source and documentation show; the rest of the
//! library is proved from these statements.

use crate::v1::json::{members_map, JsonView};
use vstd::prelude::*;

verus! {

/// The number type of `serde_json`, carried through as an opaque value.
#[verifier::external_type_specification]
#[verifier::external_body]
pub struct ExNumber(serde_json::Number);

/// The value type of `serde_json`, seen by the library only through
/// [`value_view`].
#[verifier::external_type_specification]
#[verifier::external_body]
pub struct ExValue(serde_json::Value);

/// The object type of `serde_json`, seen by the library only through
/// [`map_view`]. The library builds `serde_json` with its default map, which
/// keeps one value for each key and walks its members in the order of the
/// keys.
#[verifier::external_type_specification]
#[verifier::external_body]
#[verifier::reject_recursive_types(K)]
#[verifier::reject_recursive_types(V)]
pub struct ExMap<K, V>(serde_json::Map<K, V>);

/// The JSON value that a `serde_json::Value` holds.
pub uninterp spec fn value_view(value: serde_json::Value) -> JsonView;

/// The members that a `serde_json::Map` holds.
pub uninterp spec fn map_view(map: serde_json::Map<String, serde_json::Value>) -> Map<
    Seq<char>,
    JsonView,
>;

/// The integer that a `serde_json::Number` holds, and nothing where it holds
/// a floating-point number.
pub uninterp spec fn number_int(number: serde_json::Number) -> Option<int>;

/// The `serde_json::Number` that holds a given unsigned integer.
pub uninterp spec fn integer_number(value: u64) -> serde_json::Number;

/// The JSON value that `serde_json` reads from a text, if it reads one: the
/// whole text must be one JSON document, with nothing but whitespace around
/// it.
pub uninterp spec fn json_document(text: Seq<u8>) -> Option<JsonView>;

/// The compact text that `serde_json` writes for a JSON value, if it writes
/// one. With the default map of `serde_json` the members of an object are
/// written in the order of their keys, so that the text depends on the value
/// alone.
pub uninterp spec fn json_text(value: JsonView) -> Option<Seq<char>>;

/// `Clone::clone` of `serde_json::Number`: the copy is the same number.
pub assume_specification[ <serde_json::Number as Clone>::clone ](n: &serde_json::Number) -> (r:
    serde_json::Number)
    ensures
        r == *n,
;

/// `serde_json::Number::as_i64`: the number as an `i64` where it is an
/// integer in the range of `i64`, and nothing otherwise.
pub assume_specification[ serde_json::Number::as_i64 ](number: &serde_json::Number) -> (value:
    Option<i64>)
    ensures
        match value {
            Some(v) => number_int(*number) == Some(v as int),
            None => match number_int(*number) {
                Some(n) => n < i64::MIN || n > i64::MAX,
                None => true,
            },
        },
;

/// `serde_json::Number::as_u64`: the number as a `u64` where it is an
/// integer in the range of `u64`, and nothing otherwise.
pub assume_specification[ serde_json::Number::as_u64 ](number: &serde_json::Number) -> (value:
    Option<u64>)
    ensures
        match value {
            Some(v) => number_int(*number) == Some(v as int),
            None => match number_int(*number) {
                Some(n) => n < 0 || n > u64::MAX,
                None => true,
            },
        },
;

/// `From<u64>` for `serde_json::Number`: the number that holds the integer.
pub assume_specification[ <serde_json::Number as From<u64>>::from ](value: u64) -> (number:
    serde_json::Number)
    ensures
        number == integer_number(value),
        number_int(number) == Some(value as int),
;

/// One level of a `serde_json::Value`: its variant, with what lies below
/// still in `serde_json`'s own types.
pub enum Layer {
    Null,
    Bool(bool),
    Number(serde_json::Number),
    Text(String),
    Array(Vec<serde_json::Value>),
    Object(serde_json::Map<String, serde_json::Value>),
}

/// The values that a list of `serde_json` values holds, in order.
pub open spec fn values_view(values: Seq<serde_json::Value>) -> Seq<JsonView> {
    Seq::new(values.len(), |i: int| value_view(values[i]))
}

/// The keys and values that a list of `serde_json` members holds, in order.
pub open spec fn pairs_view(pairs: Seq<(String, serde_json::Value)>) -> Seq<
    (Seq<char>, JsonView),
> {
    Seq::new(pairs.len(), |i: int| (pairs[i].0@, value_view(pairs[i].1)))
}

impl View for Layer {
    type V = JsonView;

    open spec fn view(&self) -> JsonView {
        match self {
            Layer::Null => JsonView::Null,
            Layer::Bool(b) => JsonView::Bool(*b),
            Layer::Number(n) => JsonView::Number(*n),
            Layer::Text(s) => JsonView::Text(s@),
            Layer::Array(values) => JsonView::Array(values_view(values@)),
            Layer::Object(map) => JsonView::Object(map_view(*map)),
        }
    }
}

/// Takes a `serde_json::Value` apart by one level. The layer holds the same
/// JSON value: the variant is kept and its fields are moved over.
#[verifier::external_body]
pub(crate) fn open_value(value: serde_json::Value) -> (layer: Layer)
    ensures
        layer@ == value_view(value),
{
    match value {
        serde_json::Value::Null => Layer::Null,
        serde_json::Value::Bool(b) => Layer::Bool(b),
        serde_json::Value::Number(n) => Layer::Number(n),
        serde_json::Value::String(s) => Layer::Text(s),
        serde_json::Value::Array(values) => Layer::Array(values),
        serde_json::Value::Object(map) => Layer::Object(map),
    }
}

/// Puts a layer together into a `serde_json::Value` of the same variant, which
/// holds the same JSON value.
#[verifier::external_body]
pub(crate) fn close_value(layer: Layer) -> (value: serde_json::Value)
    ensures
        value_view(value) == layer@,
{
    match layer {
        Layer::Null => serde_json::Value::Null,
        Layer::Bool(b) => serde_json::Value::Bool(b),
        Layer::Number(n) => serde_json::Value::Number(n),
        Layer::Text(s) => serde_json::Value::String(s),
        Layer::Array(values) => serde_json::Value::Array(values),
        Layer::Object(map) => serde_json::Value::Object(map),
    }
}

/// `serde_json::Map::new`: a map without members.
#[verifier::external_body]
pub(crate) fn map_new() -> (fresh: serde_json::Map<String, serde_json::Value>)
    ensures
        map_view(fresh) == members_map(Seq::empty()),
{
    serde_json::Map::new()
}

/// `serde_json::Map::insert`: the map then holds the value under the key,
/// whether or not the key was present, and its other members are unchanged.
#[verifier::external_body]
pub(crate) fn map_insert(
    map: &mut serde_json::Map<String, serde_json::Value>,
    key: String,
    value: serde_json::Value,
)
    ensures
        map_view(*final(map)) == map_view(*old(map)).insert(key@, value_view(value)),
{
    map.insert(key, value);
}

/// The members of a `serde_json::Map`, handed out through its owning
/// iterator: each key once, and together they are the map.
#[verifier::external_body]
pub(crate) fn map_members(map: serde_json::Map<String, serde_json::Value>) -> (members: Vec<
    (String, serde_json::Value),
>)
    ensures
        members_map(pairs_view(members@)) == map_view(map),
        forall|i: int, j: int|
            0 <= i < j < members@.len() ==> members@[i].0@ != members@[j].0@,
{
    map.into_iter().collect()
}

/// `serde_json::from_slice` at the type `serde_json::Value`: the value read
/// from the text, or nothing where `serde_json` reports an error.
#[verifier::external_body]
pub(crate) fn read_value(text: &[u8]) -> (value: Option<serde_json::Value>)
    ensures
        match value {
            Some(v) => json_document(text@) == Some(value_view(v)),
            None => json_document(text@) is None,
        },
{
    serde_json::from_slice::<serde_json::Value>(text).ok()
}

/// `serde_json::to_string` on a `serde_json::Value`: the compact text, or
/// nothing where `serde_json` reports an error.
#[verifier::external_body]
pub(crate) fn write_value(value: &serde_json::Value) -> (text: Option<String>)
    ensures
        match text {
            Some(t) => json_text(value_view(*value)) == Some(t@),
            None => json_text(value_view(*value)) is None,
        },
{
    serde_json::to_string(value).ok()
}

} // verus!
