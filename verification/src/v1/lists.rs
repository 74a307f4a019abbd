//! Decoding a JSON array item by item.

use crate::v1::errors::DecodeErrorView;
use crate::v1::json::JsonView;
use vstd::prelude::*;

verus! {

/// What a list of JSON values denotes when each item is decoded by `one`:
/// the decoded items in the same order. Where some item is rejected, the
/// whole list is, with the error of the first such item.
pub open spec fn all_from_json<T>(
    items: Seq<JsonView>,
    one: spec_fn(JsonView) -> Result<T, DecodeErrorView>,
) -> Result<Seq<T>, DecodeErrorView>
    decreases items.len(),
{
    if items.len() == 0 {
        Ok(Seq::empty())
    } else {
        match all_from_json(items.drop_last(), one) {
            Ok(decoded) => match one(items.last()) {
                Ok(item) => Ok(decoded.push(item)),
                Err(error) => Err(error),
            },
            Err(error) => Err(error),
        }
    }
}

/// How the outcome for a beginning of a list grows by one item.
pub proof fn lemma_one_more<T>(
    items: Seq<JsonView>,
    one: spec_fn(JsonView) -> Result<T, DecodeErrorView>,
    upto: int,
)
    requires
        0 <= upto < items.len(),
    ensures
        all_from_json(items.take(upto + 1), one) == match all_from_json(items.take(upto), one) {
            Ok(decoded) => match one(items[upto]) {
                Ok(item) => Ok(decoded.push(item)),
                Err(error) => Err(error),
            },
            Err(error) => Err(error),
        },
{
    assert(items.take(upto + 1).drop_last() =~= items.take(upto));
}

/// A list whose beginning is rejected is rejected with the same error.
pub proof fn lemma_all_rejected<T>(
    items: Seq<JsonView>,
    one: spec_fn(JsonView) -> Result<T, DecodeErrorView>,
    upto: int,
)
    requires
        0 <= upto <= items.len(),
        all_from_json(items.take(upto), one) is Err,
    ensures
        all_from_json(items, one) == all_from_json(items.take(upto), one),
    decreases items.len() - upto,
{
    if upto < items.len() {
        lemma_one_more(items, one, upto);
        lemma_all_rejected(items, one, upto + 1);
    } else {
        assert(items.take(upto) =~= items);
    }
}

/// A list that is accepted yields as many items as it has, each the one
/// decoded from the item at its place.
pub proof fn lemma_all_accepted<T>(
    items: Seq<JsonView>,
    one: spec_fn(JsonView) -> Result<T, DecodeErrorView>,
)
    requires
        all_from_json(items, one) is Ok,
    ensures
        all_from_json(items, one)->Ok_0.len() == items.len(),
        forall|i: int|
            0 <= i < items.len() ==> one(items[i]) == Ok::<T, DecodeErrorView>(
                #[trigger] all_from_json(items, one)->Ok_0[i],
            ),
    decreases items.len(),
{
    if items.len() > 0 {
        lemma_all_accepted(items.drop_last(), one);
    }
}

} // verus!
