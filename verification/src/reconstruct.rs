//! Turning raw result sets into typed records.

use crate::error::{deserialization_failed, no_items, too_many_items, ApiError, ApiErrorView};
use crate::item::{AttributeValueView, Item, ItemView, ResultSet};
use vstd::prelude::*;

verus! {

/// A record shape that can be built from the named attributes of a raw item.
pub trait FromItem: Sized + View {
    /// The record that an item stands for; `None` where the item does not have this shape.
    spec fn decoded(item: ItemView) -> Option<Self::V>;

    /// Builds the record from an item, or returns `None` where the item does not have
    /// this shape.
    fn from_item(item: &Item) -> (r: Option<Self>)
        ensures
            match r {
                Some(record) => Self::decoded(item@) == Some(record@),
                None => Self::decoded(item@) is None,
            },
    ;
}

/// The views of a list of records, in the same order.
pub open spec fn views_of<T: View>(records: Seq<T>) -> Seq<T::V> {
    Seq::new(records.len(), |i: int| records[i]@)
}

/// Whether every item has the shape `T`.
pub open spec fn all_conform<T: FromItem>(items: Seq<ItemView>) -> bool {
    forall|i: int| 0 <= i < items.len() ==> (#[trigger] T::decoded(items[i])) is Some
}

/// The records that the items stand for, in the same order; `None` where some item does
/// not have the shape `T`.
pub open spec fn decoded_all<T: FromItem>(items: Seq<ItemView>) -> Option<Seq<T::V>> {
    if all_conform::<T>(items) {
        Some(Seq::new(items.len(), |i: int| T::decoded(items[i])->0))
    } else {
        None
    }
}

/// What is asked of a list of records where exactly one is required.
pub open spec fn sole_record<V>(records: Seq<V>) -> Result<V, ApiErrorView> {
    if records.len() == 0 {
        Err(no_items())
    } else if records.len() > 1 {
        Err(too_many_items())
    } else {
        Ok(records[0])
    }
}

/// The one record that a result set stands for, or why there is none.
pub open spec fn decoded_one<T: FromItem>(items: Seq<ItemView>) -> Result<T::V, ApiErrorView> {
    match decoded_all::<T>(items) {
        Some(records) => sole_record(records),
        None => Err(deserialization_failed()),
    }
}

/// Builds a record from every item of the result set, in the set's order.
///
/// Fails with `DeserializationFailed` as soon as one item does not have the shape `T`.
pub fn reconstruct_results<T: FromItem>(results: ResultSet) -> (r: Result<Vec<T>, ApiError>)
    ensures
        match r {
            Ok(records) => decoded_all::<T>(results@) == Some(views_of(records@)),
            Err(e) => decoded_all::<T>(results@) is None && e@ == deserialization_failed(),
        },
{
    let mut records: Vec<T> = Vec::new();
    let mut i: usize = 0;
    while i < results.items.len()
        invariant
            i <= results.items@.len(),
            records@.len() == i,
            forall|k: int| 0 <= k < i ==> T::decoded(results@[k]) == Some(#[trigger] records@[k]@),
        decreases results.items@.len() - i,
    {
        match T::from_item(&results.items[i]) {
            Some(record) => {
                records.push(record);
            },
            None => {
                assert(T::decoded(results@[i as int]) is None);
                return Err(ApiError::deserialization_failed());
            },
        }
        i += 1;
    }
    proof {
        assert forall|k: int| 0 <= k < results@.len() implies (#[trigger] T::decoded(
            results@[k],
        )) is Some by {
            assert(T::decoded(results@[k]) == Some(records@[k]@));
        }
        assert(decoded_all::<T>(results@)->0 =~= views_of(records@)) by {
            assert forall|k: int| 0 <= k < results@.len() implies T::decoded(results@[k])->0
                == views_of(records@)[k] by {
                assert(T::decoded(results@[k]) == Some(records@[k]@));
            }
        }
    }
    Ok(records)
}

/// Demands that the list holds exactly one record, and hands that record out.
///
/// Fails with `NotFound` on an empty list and with `MultipleMatches` on a longer one.
pub fn exactly_one<T>(records: Vec<T>) -> (r: Result<T, ApiError>)
    ensures
        match r {
            Ok(record) => sole_record(records@) == Ok::<T, ApiErrorView>(record),
            Err(e) => sole_record(records@) == Err::<T, ApiErrorView>(e@),
        },
{
    let mut records = records;
    if records.len() > 1 {
        return Err(ApiError::too_many_items());
    }
    match records.pop() {
        Some(record) => Ok(record),
        None => Err(ApiError::no_items()),
    }
}

/// Builds the one record that the result set stands for.
///
/// Every item is decoded first, so an item of another shape fails the call with
/// `DeserializationFailed` whatever the number of items. Then an empty set fails with
/// `NotFound` and one of several items with `MultipleMatches`. Not for lookups that
/// may rightly match several records.
pub fn reconstruct_result<T: FromItem>(results: ResultSet) -> (r: Result<T, ApiError>)
    ensures
        match r {
            Ok(record) => decoded_one::<T>(results@) == Ok::<T::V, ApiErrorView>(record@),
            Err(e) => decoded_one::<T>(results@) == Err::<T::V, ApiErrorView>(e@),
        },
{
    match reconstruct_results::<T>(results) {
        Ok(records) => {
            assert(views_of(records@).len() == records@.len());
            if records.len() == 1 {
                assert(views_of(records@)[0] == records@[0]@);
            }
            exactly_one(records)
        },
        Err(e) => Err(e),
    }
}

/// An empty result set decodes to the empty list, whatever the shape.
pub proof fn lemma_decoded_all_empty<T: FromItem>()
    ensures
        decoded_all::<T>(Seq::empty()) == Some(Seq::<T::V>::empty()),
{
    assert(decoded_all::<T>(Seq::empty())->0 =~= Seq::<T::V>::empty());
}

/// A result set of one item decodes to one record where the item has the shape, and
/// fails to decode where it has not.
pub proof fn lemma_decoded_all_single<T: FromItem>(item: ItemView)
    ensures
        match T::decoded(item) {
            Some(record) => decoded_all::<T>(seq![item]) == Some(seq![record]),
            None => decoded_all::<T>(seq![item]) is None,
        },
{
    let items = seq![item];
    assert(items[0] == item);
    match T::decoded(item) {
        Some(record) => {
            assert(all_conform::<T>(items));
            assert(decoded_all::<T>(items)->0 =~= seq![record]);
        },
        None => {
            assert(!(T::decoded(items[0]) is Some));
        },
    }
}

/// Once every item decodes, the number of items decides: none is `NotFound`, one is
/// that record, more are `MultipleMatches`.
pub proof fn lemma_decoded_one_by_count<T: FromItem>(items: Seq<ItemView>)
    requires
        all_conform::<T>(items),
    ensures
        items.len() == 0 ==> decoded_one::<T>(items) == Err::<T::V, ApiErrorView>(no_items()),
        items.len() == 1 ==> decoded_one::<T>(items) == Ok::<T::V, ApiErrorView>(
            T::decoded(items[0])->0,
        ),
        items.len() > 1 ==> decoded_one::<T>(items) == Err::<T::V, ApiErrorView>(
            too_many_items(),
        ),
{
}

} // verus!
