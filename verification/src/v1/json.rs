//! JSON values as the library sees them, and their mathematical model.
//!
//! A [`Json`] is a tree that the library can read and build. Numbers are
//! carried as `serde_json` made them. An object is held as the list of its
//! members and stands for a map: where a key occurs twice, the later member
//! counts.

use crate::v1::text::text_eq;
use crate::v1::trusted::{integer_number, number_int};
use vstd::prelude::*;

verus! {

/// A JSON value whose structure is open to the library.
#[derive(Debug, PartialEq, Eq)]
pub enum Json {
    Null,
    Bool(bool),
    Number(serde_json::Number),
    Text(String),
    Array(Vec<Json>),
    Object(Vec<(String, Json)>),
}

/// The mathematical value that a [`Json`] stands for.
pub enum JsonView {
    Null,
    Bool(bool),
    Number(serde_json::Number),
    Text(Seq<char>),
    Array(Seq<JsonView>),
    Object(Map<Seq<char>, JsonView>),
}

/// The map that a list of members denotes: a later member replaces an
/// earlier one with the same key.
pub open spec fn members_map(members: Seq<(Seq<char>, JsonView)>) -> Map<Seq<char>, JsonView>
    decreases members.len(),
{
    if members.len() == 0 {
        Map::empty()
    } else {
        members_map(members.drop_last()).insert(members.last().0, members.last().1)
    }
}

impl View for Json {
    type V = JsonView;

    open spec fn view(&self) -> JsonView
        decreases self, 0int,
    {
        match self {
            Json::Null => JsonView::Null,
            Json::Bool(b) => JsonView::Bool(*b),
            Json::Number(n) => JsonView::Number(*n),
            Json::Text(s) => JsonView::Text(s@),
            Json::Array(items) => JsonView::Array(items_view(items@)),
            Json::Object(members) => JsonView::Object(object_view(members@)),
        }
    }
}

/// The values that the items of an array stand for, in order.
pub open spec fn items_view(items: Seq<Json>) -> Seq<JsonView>
    decreases items, 0int,
{
    Seq::new(
        items.len(),
        |i: int|
            if 0 <= i < items.len() {
                items[i]@
            } else {
                JsonView::Null
            },
    )
}

/// The keys and values that the members of an object stand for, in order.
pub open spec fn members_view(members: Seq<(String, Json)>) -> Seq<(Seq<char>, JsonView)>
    decreases members, 0int,
{
    Seq::new(
        members.len(),
        |i: int|
            if 0 <= i < members.len() {
                (members[i].0@, members[i].1@)
            } else {
                (Seq::empty(), JsonView::Null)
            },
    )
}

/// The map that the members of an object denote.
pub open spec fn object_view(members: Seq<(String, Json)>) -> Map<Seq<char>, JsonView>
    decreases members, 1int,
{
    members_map(members_view(members))
}

/// The last member with a given key is the one that the map holds.
pub proof fn lemma_member_found(members: Seq<(Seq<char>, JsonView)>, key: Seq<char>, at: int)
    requires
        0 <= at < members.len(),
        members[at].0 == key,
        forall|j: int| at < j < members.len() ==> members[j].0 != key,
    ensures
        members_map(members).dom().contains(key),
        members_map(members)[key] == members[at].1,
    decreases members.len(),
{
    if at < members.len() - 1 {
        lemma_member_found(members.drop_last(), key, at);
    }
}

/// A key that no member has is not in the map.
pub proof fn lemma_member_absent(members: Seq<(Seq<char>, JsonView)>, key: Seq<char>)
    requires
        forall|j: int| 0 <= j < members.len() ==> members[j].0 != key,
    ensures
        !members_map(members).dom().contains(key),
    decreases members.len(),
{
    if members.len() > 0 {
        lemma_member_absent(members.drop_last(), key);
    }
}

/// The map of a list of members has finitely many keys.
pub proof fn lemma_members_finite(members: Seq<(Seq<char>, JsonView)>)
    ensures
        members_map(members).dom().finite(),
    decreases members.len(),
{
    if members.len() > 0 {
        lemma_members_finite(members.drop_last());
    }
}

/// The text of a JSON string, and nothing for any other kind of value.
pub open spec fn text_of(value: JsonView) -> Option<Seq<char>> {
    match value {
        JsonView::Text(s) => Some(s),
        _ => None,
    }
}

/// The flag of a JSON boolean, and nothing for any other kind of value.
pub open spec fn bool_of(value: JsonView) -> Option<bool> {
    match value {
        JsonView::Bool(flag) => Some(flag),
        _ => None,
    }
}

/// The members of a JSON object, and nothing for any other kind of value.
pub open spec fn object_of(value: JsonView) -> Option<Map<Seq<char>, JsonView>> {
    match value {
        JsonView::Object(m) => Some(m),
        _ => None,
    }
}

/// The items of a JSON array, and nothing for any other kind of value.
pub open spec fn array_of(value: JsonView) -> Option<Seq<JsonView>> {
    match value {
        JsonView::Array(items) => Some(items),
        _ => None,
    }
}

/// The integer of a JSON number without fraction or exponent, and nothing
/// for any other value.
pub open spec fn int_of(value: JsonView) -> Option<int> {
    match value {
        JsonView::Number(n) => number_int(n),
        _ => None,
    }
}

/// The integer of a JSON value where it is one and lies between two bounds.
pub open spec fn int_within(value: JsonView, low: int, high: int) -> Option<int> {
    match int_of(value) {
        Some(n) => if low <= n <= high {
            Some(n)
        } else {
            None
        },
        None => None,
    }
}

/// The value under a key of an object, if the key is present.
pub open spec fn field(object: Map<Seq<char>, JsonView>, key: Seq<char>) -> Option<JsonView> {
    if object.dom().contains(key) {
        Some(object[key])
    } else {
        None
    }
}

/// The value under a key of an object, where the key is present and does not
/// hold `null`.
pub open spec fn present_field(object: Map<Seq<char>, JsonView>, key: Seq<char>) -> Option<
    JsonView,
> {
    match field(object, key) {
        Some(JsonView::Null) => None,
        Some(value) => Some(value),
        None => None,
    }
}

/// The text under a key of an object, if the key is present and holds a
/// JSON string.
pub open spec fn text_field(object: Map<Seq<char>, JsonView>, key: Seq<char>) -> Option<
    Seq<char>,
> {
    match field(object, key) {
        Some(value) => text_of(value),
        None => None,
    }
}

/// The members under a key of an object, if the key is present and holds a
/// JSON object.
pub open spec fn object_field(object: Map<Seq<char>, JsonView>, key: Seq<char>) -> Option<
    Map<Seq<char>, JsonView>,
> {
    match field(object, key) {
        Some(value) => object_of(value),
        None => None,
    }
}

/// The items under a key of an object, if the key is present and holds a
/// JSON array.
pub open spec fn array_field(object: Map<Seq<char>, JsonView>, key: Seq<char>) -> Option<
    Seq<JsonView>,
> {
    match field(object, key) {
        Some(value) => array_of(value),
        None => None,
    }
}

impl Json {
    /// The text of this value, if it is a JSON string.
    pub fn as_text(&self) -> (text: Option<&String>)
        ensures
            match text {
                Some(s) => text_of(self@) == Some(s@),
                None => text_of(self@) is None,
            },
    {
        match self {
            Json::Text(s) => Some(s),
            _ => None,
        }
    }

    /// The flag of this value, if it is a JSON boolean.
    pub fn as_bool(&self) -> (flag: Option<bool>)
        ensures
            flag == bool_of(self@),
    {
        match self {
            Json::Bool(flag) => Some(*flag),
            _ => None,
        }
    }

    /// The members of this value, if it is a JSON object.
    pub fn as_object(&self) -> (members: Option<&Vec<(String, Json)>>)
        ensures
            match members {
                Some(m) => object_of(self@) == Some(object_view(m@)) && *self == Json::Object(*m),
                None => object_of(self@) is None,
            },
    {
        match self {
            Json::Object(m) => Some(m),
            _ => None,
        }
    }

    /// The items of this value, if it is a JSON array.
    pub fn as_array(&self) -> (items: Option<&Vec<Json>>)
        ensures
            match items {
                Some(a) => array_of(self@) == Some(items_view(a@)) && *self == Json::Array(*a),
                None => array_of(self@) is None,
            },
    {
        match self {
            Json::Array(a) => Some(a),
            _ => None,
        }
    }

    /// This value as an `i32`, if it is an integer in the range of `i32`.
    pub fn as_i32(&self) -> (value: Option<i32>)
        ensures
            match value {
                Some(v) => int_within(self@, i32::MIN as int, i32::MAX as int) == Some(v as int),
                None => int_within(self@, i32::MIN as int, i32::MAX as int) is None,
            },
    {
        match self {
            Json::Number(n) => match n.as_i64() {
                Some(v) => if -2147483648 <= v && v <= 2147483647 {
                    Some(v as i32)
                } else {
                    None
                },
                None => None,
            },
            _ => None,
        }
    }

    /// This value as a `u32`, if it is an integer in the range of `u32`.
    pub fn as_u32(&self) -> (value: Option<u32>)
        ensures
            match value {
                Some(v) => int_within(self@, 0, u32::MAX as int) == Some(v as int),
                None => int_within(self@, 0, u32::MAX as int) is None,
            },
    {
        match self {
            Json::Number(n) => match n.as_u64() {
                Some(v) => if v <= 4294967295 {
                    Some(v as u32)
                } else {
                    None
                },
                None => None,
            },
            _ => None,
        }
    }

    /// Whether this value is JSON's `null`.
    pub fn is_null(&self) -> (null: bool)
        ensures
            null == (self@ is Null),
    {
        match self {
            Json::Null => true,
            _ => false,
        }
    }

    /// A copy of this value.
    pub fn duplicate(&self) -> (copy: Json)
        ensures
            copy@ == self@,
        decreases self,
    {
        match self {
            Json::Null => Json::Null,
            Json::Bool(b) => Json::Bool(*b),
            Json::Number(n) => Json::Number(n.clone()),
            Json::Text(s) => Json::Text(s.clone()),
            Json::Array(items) => {
                let mut copies: Vec<Json> = Vec::new();
                let mut i: usize = 0;
                while i < items.len()
                    invariant
                        *self == Json::Array(*items),
                        i <= items.len(),
                        copies@.len() == i,
                        forall|k: int| 0 <= k < i ==> copies@[k]@ == items@[k]@,
                    decreases items.len() - i,
                {
                    assert(self->Array_0 == *items);
                    copies.push(items[i].duplicate());
                    i += 1;
                }
                assert(items_view(copies@) =~= items_view(items@));
                Json::Array(copies)
            },
            Json::Object(members) => Json::Object(duplicate_members(members)),
        }
    }
}

impl Clone for Json {
    fn clone(&self) -> (copy: Json)
        ensures
            copy@ == self@,
    {
        self.duplicate()
    }
}

/// A copy of the members of an object, in the same order.
pub fn duplicate_members(members: &Vec<(String, Json)>) -> (copies: Vec<(String, Json)>)
    ensures
        members_view(copies@) == members_view(members@),
        object_view(copies@) == object_view(members@),
    decreases members,
{
    let mut copies: Vec<(String, Json)> = Vec::new();
    let mut i: usize = 0;
    while i < members.len()
        invariant
            i <= members.len(),
            copies@.len() == i,
            forall|k: int|
                0 <= k < i ==> copies@[k].0@ == members@[k].0@ && copies@[k].1@
                    == members@[k].1@,
        decreases members.len() - i,
    {
        let key = members[i].0.clone();
        let value = members[i].1.duplicate();
        copies.push((key, value));
        i += 1;
    }
    assert(members_view(copies@) =~= members_view(members@));
    copies
}

/// Looks a key up among the members of an object.
pub fn find_member<'a>(members: &'a Vec<(String, Json)>, key: &str) -> (found: Option<&'a Json>)
    ensures
        match found {
            Some(value) => object_view(members@).dom().contains(key@) && object_view(
                members@,
            )[key@] == value@,
            None => !object_view(members@).dom().contains(key@),
        },
{
    let mut i: usize = members.len();
    while i > 0
        invariant
            i <= members.len(),
            forall|j: int| i <= j < members.len() ==> members@[j].0@ != key@,
        decreases i,
    {
        i -= 1;
        if text_eq(members[i].0.as_str(), key) {
            proof {
                lemma_member_found(members_view(members@), key@, i as int);
            }
            return Some(&members[i].1);
        }
    }
    proof {
        lemma_member_absent(members_view(members@), key@);
    }
    None
}

/// The value under a key, where the key is present and does not hold `null`.
pub fn find_present<'a>(members: &'a Vec<(String, Json)>, key: &str) -> (found: Option<
    &'a Json,
>)
    ensures
        match found {
            Some(value) => present_field(object_view(members@), key@) == Some(value@),
            None => present_field(object_view(members@), key@) is None,
        },
{
    match find_member(members, key) {
        Some(value) => if value.is_null() {
            None
        } else {
            Some(value)
        },
        None => None,
    }
}

/// A copy of the text under a key, if the key is present and holds a JSON
/// string.
pub fn member_text(members: &Vec<(String, Json)>, key: &str) -> (text: Option<String>)
    ensures
        match text {
            Some(s) => text_field(object_view(members@), key@) == Some(s@),
            None => text_field(object_view(members@), key@) is None,
        },
{
    match find_member(members, key) {
        Some(value) => match value.as_text() {
            Some(s) => Some(s.clone()),
            None => None,
        },
        None => None,
    }
}

/// The members under a key, if the key is present and holds a JSON object.
pub fn member_object<'a>(members: &'a Vec<(String, Json)>, key: &str) -> (inner: Option<
    &'a Vec<(String, Json)>,
>)
    ensures
        match inner {
            Some(m) => object_field(object_view(members@), key@) == Some(object_view(m@)),
            None => object_field(object_view(members@), key@) is None,
        },
{
    match find_member(members, key) {
        Some(value) => value.as_object(),
        None => None,
    }
}

/// The items under a key, if the key is present and holds a JSON array.
pub fn member_array<'a>(members: &'a Vec<(String, Json)>, key: &str) -> (items: Option<
    &'a Vec<Json>,
>)
    ensures
        match items {
            Some(a) => array_field(object_view(members@), key@) == Some(items_view(a@)),
            None => array_field(object_view(members@), key@) is None,
        },
{
    match find_member(members, key) {
        Some(value) => value.as_array(),
        None => None,
    }
}

/// The members of an object without members.
pub fn no_members() -> (members: Vec<(String, Json)>)
    ensures
        object_view(members@) == Map::<Seq<char>, JsonView>::empty(),
{
    let members: Vec<(String, Json)> = Vec::new();
    assert(members_view(members@) =~= Seq::empty());
    members
}

/// Adds a member to the members of an object. It replaces a member that has
/// the same key.
pub fn add_member(members: &mut Vec<(String, Json)>, key: &str, value: Json)
    ensures
        object_view(final(members)@) == object_view(old(members)@).insert(key@, value@),
{
    let ghost before = members_view(members@);
    members.push((key.to_owned(), value));
    proof {
        assert(members_view(members@).drop_last() =~= before);
    }
}

/// The members of an object with one member.
pub fn one_member(key: &str, value: Json) -> (members: Vec<(String, Json)>)
    ensures
        object_view(members@) == map![key@ => value@],
{
    let mut members: Vec<(String, Json)> = Vec::new();
    members.push((key.to_owned(), value));
    proof {
        reveal_with_fuel(members_map, 2);
        assert(members_view(members@).drop_last() =~= Seq::empty());
    }
    members
}

/// The members of an object with two members. Where the keys are the same,
/// the second member counts.
pub fn two_members(first_key: &str, first: Json, second_key: &str, second: Json) -> (members: Vec<
    (String, Json),
>)
    ensures
        object_view(members@) == map![first_key@ => first@, second_key@ => second@],
{
    let mut members: Vec<(String, Json)> = Vec::new();
    members.push((first_key.to_owned(), first));
    members.push((second_key.to_owned(), second));
    proof {
        reveal_with_fuel(members_map, 3);
        let all = members_view(members@);
        assert(all.drop_last().drop_last() =~= Seq::empty());
        assert(all.drop_last().last() == (first_key@, first@));
        assert(all.last() == (second_key@, second@));
    }
    members
}

/// The JSON number of an unsigned integer.
pub open spec fn integer_json(value: u64) -> JsonView {
    JsonView::Number(integer_number(value))
}

/// An object with one more member, where there is a value for it.
pub open spec fn with_optional(
    object: Map<Seq<char>, JsonView>,
    key: Seq<char>,
    value: Option<JsonView>,
) -> Map<Seq<char>, JsonView> {
    match value {
        Some(json) => object.insert(key, json),
        None => object,
    }
}

/// The JSON strings of a list of texts, in order.
pub open spec fn texts_json(texts: Seq<String>) -> JsonView {
    JsonView::Array(Seq::new(texts.len(), |i: int| JsonView::Text(texts[i]@)))
}

/// The JSON strings of a list of texts that may be missing.
pub open spec fn optional_texts_json(texts: Option<Vec<String>>) -> JsonView {
    match texts {
        Some(list) => texts_json(list@),
        None => JsonView::Null,
    }
}

/// The JSON string of a text that may be missing.
pub open spec fn optional_text_json(text: Option<String>) -> JsonView {
    match text {
        Some(s) => JsonView::Text(s@),
        None => JsonView::Null,
    }
}

/// The JSON boolean of a flag that may be missing.
pub open spec fn optional_bool_json(flag: Option<bool>) -> JsonView {
    match flag {
        Some(b) => JsonView::Bool(b),
        None => JsonView::Null,
    }
}

/// The JSON number of an unsigned integer.
pub fn encode_integer(value: u64) -> (json: Json)
    ensures
        json@ == integer_json(value),
{
    Json::Number(serde_json::Number::from(value))
}

/// The JSON strings of a list of texts, in order.
pub fn encode_texts(texts: &Vec<String>) -> (json: Json)
    ensures
        json@ == texts_json(texts@),
{
    let mut items: Vec<Json> = Vec::new();
    let mut i: usize = 0;
    while i < texts.len()
        invariant
            i <= texts.len(),
            items@.len() == i,
            forall|k: int| 0 <= k < i ==> items@[k]@ == JsonView::Text(texts@[k]@),
        decreases texts.len() - i,
    {
        items.push(Json::Text(texts[i].clone()));
        i += 1;
    }
    assert(items_view(items@) =~= texts_json(texts@)->Array_0);
    Json::Array(items)
}

/// The JSON strings of a list of texts that may be missing.
pub fn encode_optional_texts(texts: &Option<Vec<String>>) -> (json: Json)
    ensures
        json@ == optional_texts_json(*texts),
{
    match texts {
        Some(list) => encode_texts(list),
        None => Json::Null,
    }
}

/// The JSON string of a text that may be missing.
pub fn encode_optional_text(text: &Option<String>) -> (json: Json)
    ensures
        json@ == optional_text_json(*text),
{
    match text {
        Some(s) => Json::Text(s.clone()),
        None => Json::Null,
    }
}

/// The JSON boolean of a flag that may be missing.
pub fn encode_optional_bool(flag: &Option<bool>) -> (json: Json)
    ensures
        json@ == optional_bool_json(*flag),
{
    match flag {
        Some(b) => Json::Bool(*b),
        None => Json::Null,
    }
}

} // verus!
