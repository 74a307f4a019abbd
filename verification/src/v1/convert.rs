//! Between [`Json`] and `serde_json`: values, and JSON text.

use crate::v1::json::{
    items_view, lemma_member_found, lemma_members_finite, members_map, members_view, Json,
    JsonView,
};
use crate::v1::trusted::{
    close_value, json_document, json_text, map_insert, map_members, map_new, map_view,
    open_value, pairs_view, read_value, value_view, values_view, write_value, Layer,
};
use vstd::prelude::*;

verus! {

/// Builds the `serde_json::Value` that holds the same JSON value.
pub fn to_value(json: &Json) -> (value: serde_json::Value)
    ensures
        value_view(value) == json@,
    decreases json,
{
    match json {
        Json::Null => close_value(Layer::Null),
        Json::Bool(b) => close_value(Layer::Bool(*b)),
        Json::Number(n) => close_value(Layer::Number(n.clone())),
        Json::Text(s) => close_value(Layer::Text(s.clone())),
        Json::Array(items) => {
            let mut values: Vec<serde_json::Value> = Vec::new();
            let mut i: usize = 0;
            while i < items.len()
                invariant
                    *json == Json::Array(*items),
                    i <= items.len(),
                    values@.len() == i,
                    forall|k: int| 0 <= k < i ==> value_view(values@[k]) == items@[k]@,
                decreases items.len() - i,
            {
                assert(json->Array_0 == *items);
                values.push(to_value(&items[i]));
                i += 1;
            }
            assert(values_view(values@) =~= items_view(items@));
            close_value(Layer::Array(values))
        },
        Json::Object(members) => {
            let mut map = map_new();
            let mut i: usize = 0;
            while i < members.len()
                invariant
                    *json == Json::Object(*members),
                    i <= members.len(),
                    map_view(map) == members_map(members_view(members@).take(i as int)),
                decreases members.len() - i,
            {
                assert(json->Object_0 == *members);
                let key = members[i].0.clone();
                let value = to_value(&members[i].1);
                map_insert(&mut map, key, value);
                proof {
                    let all = members_view(members@);
                    assert(all.take(i + 1).drop_last() =~= all.take(i as int));
                }
                i += 1;
            }
            assert(members_view(members@).take(i as int) =~= members_view(members@));
            close_value(Layer::Object(map))
        },
    }
}

/// Builds the [`Json`] that holds the same JSON value.
pub fn from_value(value: serde_json::Value) -> (json: Json)
    ensures
        json@ == value_view(value),
    decreases value_view(value),
{
    match open_value(value) {
        Layer::Null => Json::Null,
        Layer::Bool(b) => Json::Bool(b),
        Layer::Number(n) => Json::Number(n),
        Layer::Text(s) => Json::Text(s),
        Layer::Array(values) => {
            let ghost all = values@;
            let mut items: Vec<Json> = Vec::new();
            for v in it: values
                invariant
                    it.seq() == all,
                    value_view(value) == JsonView::Array(values_view(all)),
                    items@.len() == it.index(),
                    forall|k: int| 0 <= k < it.index() ==> items@[k]@ == value_view(all[k]),
            {
                assert(values_view(all)[it.index() as int] == value_view(v));
                assert(value_view(value)->Array_0 == values_view(all));
                items.push(from_value(v));
            }
            assert(items_view(items@) =~= values_view(all));
            Json::Array(items)
        },
        Layer::Object(map) => {
            let ghost whole = map_view(map);
            let pairs = map_members(map);
            let ghost all = pairs@;
            let mut members: Vec<(String, Json)> = Vec::new();
            for pair in it: pairs
                invariant
                    it.seq() == all,
                    value_view(value) == JsonView::Object(whole),
                    members_map(pairs_view(all)) == whole,
                    forall|i: int, j: int| 0 <= i < j < all.len() ==> all[i].0@ != all[j].0@,
                    members@.len() == it.index(),
                    forall|k: int|
                        0 <= k < it.index() ==> members@[k].0@ == all[k].0@ && members@[k].1@
                            == value_view(all[k].1),
            {
                proof {
                    let at = it.index() as int;
                    lemma_member_found(pairs_view(all), pair.0@, at);
                    lemma_members_finite(pairs_view(all));
                    assert(value_view(value)->Object_0 == whole);
                    assert(whole[pair.0@] == value_view(pair.1));
                }
                let (key, v) = pair;
                members.push((key, from_value(v)));
            }
            assert(members_view(members@) =~= pairs_view(all));
            Json::Object(members)
        },
    }
}

impl Json {
    /// Reads one JSON document from a text.
    ///
    /// The reading itself is `serde_json`'s: the result is the document that
    /// [`json_document`] names for this text, and nothing where it names none.
    pub fn parse(text: &[u8]) -> (json: Option<Json>)
        ensures
            match json {
                Some(j) => json_document(text@) == Some(j@),
                None => json_document(text@) is None,
            },
    {
        match read_value(text) {
            Some(value) => Some(from_value(value)),
            None => None,
        }
    }

    /// Writes this value as compact JSON text.
    ///
    /// The writing itself is `serde_json`'s: the result is the text that
    /// [`json_text`] names for this value, and nothing where it names none.
    pub fn to_text(&self) -> (text: Option<String>)
        ensures
            match text {
                Some(t) => json_text(self@) == Some(t@),
                None => json_text(self@) is None,
            },
    {
        let value = to_value(self);
        write_value(&value)
    }
}

} // verus!
