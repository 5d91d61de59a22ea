//! Sorting a list by text keys, upwards or downwards, so that entries with
//! equal keys keep their order.

use crate::app::SortState;
use crate::text::{lemma_text_le_total, lemma_text_le_transitive, precedes_or_equals, text_le};
use vstd::prelude::*;

verus! {

/// Whether an entry with the key `first` may stand before an entry with
/// the key `second` in a list sorted in `order`.
pub open spec fn in_order(first: Seq<char>, second: Seq<char>, order: SortState) -> bool {
    match order {
        SortState::AZ => text_le(first, second),
        SortState::ZA => text_le(second, first),
    }
}

/// Where an entry with the key `key` goes into a list whose entries have
/// the keys `placed`: behind the last entry that may stand before it.
pub open spec fn slot_for(placed: Seq<Seq<char>>, key: Seq<char>, order: SortState) -> int
    decreases placed.len(),
{
    if placed.len() == 0 {
        0
    } else if in_order(placed.last(), key, order) {
        placed.len() as int
    } else {
        slot_for(placed.drop_last(), key, order)
    }
}

/// `keys` sorted in `order`: each key in turn is put into the sorted list
/// of the keys before it, at its slot.
pub open spec fn sorted_keys(keys: Seq<Seq<char>>, order: SortState) -> Seq<Seq<char>>
    decreases keys.len(),
{
    if keys.len() == 0 {
        Seq::empty()
    } else {
        let earlier = sorted_keys(keys.drop_last(), order);
        earlier.insert(slot_for(earlier, keys.last(), order), keys.last())
    }
}

/// `items` sorted in `order` by `keys`, which holds the key of each item
/// at the item's index: each item takes the place that its key takes in
/// [`sorted_keys`].
pub open spec fn sorted_by_keys<T>(items: Seq<T>, keys: Seq<Seq<char>>, order: SortState) -> Seq<T>
    decreases items.len(),
{
    if items.len() == 0 || keys.len() == 0 {
        Seq::empty()
    } else {
        let earlier = sorted_by_keys(items.drop_last(), keys.drop_last(), order);
        earlier.insert(
            slot_for(sorted_keys(keys.drop_last(), order), keys.last(), order),
            items.last(),
        )
    }
}

/// The texts that `keys` hold.
pub open spec fn key_texts(keys: Seq<String>) -> Seq<Seq<char>> {
    Seq::new(keys.len(), |i: int| keys[i]@)
}

/// Whether each of `keys` may stand before all that follow it.
pub open spec fn ordered(keys: Seq<Seq<char>>, order: SortState) -> bool {
    forall|i: int, j: int| 0 <= i < j < keys.len() ==> in_order(keys[i], keys[j], order)
}

/// The slot parts a list: no key behind it may stand before `key`, and the
/// key before it may.
pub proof fn lemma_slot_parts(placed: Seq<Seq<char>>, key: Seq<char>, order: SortState)
    ensures
        0 <= slot_for(placed, key, order) <= placed.len(),
        forall|k: int|
            slot_for(placed, key, order) <= k < placed.len() ==> !in_order(
                #[trigger] placed[k],
                key,
                order,
            ),
        slot_for(placed, key, order) > 0 ==> in_order(
            placed[slot_for(placed, key, order) - 1],
            key,
            order,
        ),
    decreases placed.len(),
{
    if placed.len() > 0 && !in_order(placed.last(), key, order) {
        lemma_slot_parts(placed.drop_last(), key, order);
        assert forall|k: int| slot_for(placed, key, order) <= k < placed.len() implies !in_order(
            #[trigger] placed[k],
            key,
            order,
        ) by {
            if k < placed.len() - 1 {
                assert(placed[k] == placed.drop_last()[k]);
            }
        }
    }
}

/// Sorted keys are in order, and they are the keys that were given, each
/// as often as before.
pub proof fn lemma_sorted_keys_are_ordered(keys: Seq<Seq<char>>, order: SortState)
    ensures
        ordered(sorted_keys(keys, order), order),
        sorted_keys(keys, order).to_multiset() == keys.to_multiset(),
        sorted_keys(keys, order).len() == keys.len(),
    decreases keys.len(),
{
    if keys.len() > 0 {
        let earlier = sorted_keys(keys.drop_last(), order);
        let key = keys.last();
        let at = slot_for(earlier, key, order);
        lemma_sorted_keys_are_ordered(keys.drop_last(), order);
        lemma_slot_parts(earlier, key, order);
        let longer = earlier.insert(at, key);
        assert forall|i: int, j: int| 0 <= i < j < longer.len() implies in_order(
            longer[i],
            longer[j],
            order,
        ) by {
            if j == at {
                if i < at - 1 {
                    assert(in_order(earlier[i], earlier[at - 1], order));
                    match order {
                        SortState::AZ => lemma_text_le_transitive(earlier[i], earlier[at - 1], key),
                        SortState::ZA => lemma_text_le_transitive(key, earlier[at - 1], earlier[i]),
                    }
                }
            } else if i == at {
                assert(!in_order(earlier[j - 1], key, order));
                lemma_text_le_total(earlier[j - 1], key);
            } else if i < at {
                assert(longer[i] == earlier[i]);
                if j > at {
                    assert(longer[j] == earlier[j - 1]);
                }
            } else {
                assert(longer[i] == earlier[i - 1]);
                assert(longer[j] == earlier[j - 1]);
            }
        }
        vstd::seq_lib::to_multiset_insert(earlier, at, key);
        assert(keys =~= keys.drop_last().push(key));
        vstd::seq_lib::to_multiset_build(keys.drop_last(), key);
    } else {
        assert(keys =~= Seq::empty());
    }
}

/// Sorted items are the items that were given, each as often as before, and
/// each stands where its key stands among the sorted keys: where `key_of`
/// gives the key of every item, it gives the keys of the sorted items too.
pub proof fn lemma_sorted_items_follow_their_keys<T>(
    items: Seq<T>,
    keys: Seq<Seq<char>>,
    key_of: spec_fn(T) -> Seq<char>,
    order: SortState,
)
    requires
        items.len() == keys.len(),
        forall|i: int| 0 <= i < items.len() ==> keys[i] == key_of(#[trigger] items[i]),
    ensures
        sorted_by_keys(items, keys, order).len() == items.len(),
        sorted_by_keys(items, keys, order).to_multiset() == items.to_multiset(),
        forall|i: int|
            0 <= i < items.len() ==> sorted_keys(keys, order)[i] == key_of(
                #[trigger] sorted_by_keys(items, keys, order)[i],
            ),
    decreases items.len(),
{
    if items.len() > 0 {
        let earlier = sorted_by_keys(items.drop_last(), keys.drop_last(), order);
        let earlier_keys = sorted_keys(keys.drop_last(), order);
        let at = slot_for(earlier_keys, keys.last(), order);
        lemma_sorted_items_follow_their_keys(items.drop_last(), keys.drop_last(), key_of, order);
        lemma_sorted_keys_are_ordered(keys.drop_last(), order);
        lemma_slot_parts(earlier_keys, keys.last(), order);
        vstd::seq_lib::to_multiset_insert(earlier, at, items.last());
        assert(items =~= items.drop_last().push(items.last()));
        vstd::seq_lib::to_multiset_build(items.drop_last(), items.last());
        let longer = earlier.insert(at, items.last());
        let longer_keys = earlier_keys.insert(at, keys.last());
        assert(longer.len() == items.len());
        assert forall|i: int| 0 <= i < items.len() implies longer_keys[i] == key_of(
            #[trigger] longer[i],
        ) by {
            if i < at {
                assert(longer[i] == earlier[i]);
            } else if i > at {
                assert(longer[i] == earlier[i - 1]);
            }
        }
    } else {
        assert(items =~= Seq::empty());
    }
}

/// Whether `first` may stand before `second` in a list sorted in `order`.
fn stands_before(first: &str, second: &str, order: SortState) -> (yes: bool)
    ensures
        yes == in_order(first@, second@, order),
{
    match order {
        SortState::AZ => precedes_or_equals(first, second),
        SortState::ZA => precedes_or_equals(second, first),
    }
}

/// The slot of `key` among the first `placed` of `keys`.
fn find_slot(keys: &Vec<String>, placed: usize, key: &String, order: SortState) -> (slot: usize)
    requires
        placed <= keys@.len(),
    ensures
        slot == slot_for(key_texts(keys@.subrange(0, placed as int)), key@, order),
        slot <= placed,
{
    let mut slot: usize = placed;
    while slot > 0 && !stands_before(keys[slot - 1].as_str(), key.as_str(), order)
        invariant
            slot <= placed <= keys@.len(),
            slot_for(key_texts(keys@.subrange(0, placed as int)), key@, order) == slot_for(
                key_texts(keys@.subrange(0, slot as int)),
                key@,
                order,
            ),
        decreases slot,
    {
        assert(key_texts(keys@.subrange(0, slot as int)).drop_last() =~= key_texts(
            keys@.subrange(0, slot as int - 1),
        ));
        slot -= 1;
    }
    slot
}

/// Sorts `items` in `order` by `keys`, which holds the key of each item at
/// the item's index, and sorts `keys` along with them. Items with equal
/// keys keep their order. Where the two lists differ in length, no item
/// has its key and nothing is moved.
pub fn sort_by_keys<T>(items: &mut Vec<T>, keys: &mut Vec<String>, order: SortState)
    ensures
        old(items)@.len() == old(keys)@.len() ==> {
            &&& final(items)@ == sorted_by_keys(old(items)@, key_texts(old(keys)@), order)
            &&& key_texts(final(keys)@) == sorted_keys(key_texts(old(keys)@), order)
        },
        old(items)@.len() != old(keys)@.len() ==> {
            &&& final(items)@ == old(items)@
            &&& final(keys)@ == old(keys)@
        },
        final(items)@.len() == old(items)@.len(),
        final(keys)@.len() == old(keys)@.len(),
{
    if items.len() != keys.len() {
        return;
    }
    let len: usize = items.len();
    let ghost all_items = items@;
    let ghost all_keys = key_texts(keys@);
    let mut done: usize = 0;
    assert(items@.subrange(0, 0) =~= sorted_by_keys(
        all_items.subrange(0, 0),
        all_keys.subrange(0, 0),
        order,
    ));
    assert(key_texts(keys@).subrange(0, 0) =~= sorted_keys(all_keys.subrange(0, 0), order));
    while done < len
        invariant
            done <= len,
            all_items.len() == len,
            all_keys.len() == len,
            items@.len() == len,
            keys@.len() == len,
            items@.subrange(0, done as int) == sorted_by_keys(
                all_items.subrange(0, done as int),
                all_keys.subrange(0, done as int),
                order,
            ),
            key_texts(keys@).subrange(0, done as int) == sorted_keys(
                all_keys.subrange(0, done as int),
                order,
            ),
            items@.subrange(done as int, len as int) == all_items.subrange(
                done as int,
                len as int,
            ),
            key_texts(keys@).subrange(done as int, len as int) == all_keys.subrange(
                done as int,
                len as int,
            ),
        decreases len - done,
    {
        let ghost items_before = items@;
        let ghost keys_before = key_texts(keys@);
        let ghost seen_items = all_items.subrange(0, done as int + 1);
        let ghost seen_keys = all_keys.subrange(0, done as int + 1);
        proof {
            assert(seen_items.drop_last() =~= all_items.subrange(0, done as int));
            assert(seen_keys.drop_last() =~= all_keys.subrange(0, done as int));
            assert(items_before[done as int] == items_before.subrange(done as int, len as int)[0]);
            assert(keys_before[done as int] == keys_before.subrange(done as int, len as int)[0]);
            assert(seen_items.last() == items_before[done as int]);
            assert(seen_keys.last() == keys_before[done as int]);
        }
        let item: T = items.remove(done);
        let key: String = keys.remove(done);
        proof {
            assert(key_texts(keys@.subrange(0, done as int)) =~= keys_before.subrange(
                0,
                done as int,
            ));
        }
        let slot: usize = find_slot(keys, done, &key, order);
        items.insert(slot, item);
        keys.insert(slot, key);
        proof {
            assert(items@.subrange(0, done as int + 1) =~= items_before.subrange(
                0,
                done as int,
            ).insert(slot as int, item));
            assert(key_texts(keys@).subrange(0, done as int + 1) =~= keys_before.subrange(
                0,
                done as int,
            ).insert(slot as int, key@));
            assert(items@.subrange(done as int + 1, len as int) =~= items_before.subrange(
                done as int,
                len as int,
            ).subrange(1, len - done));
            assert(all_items.subrange(done as int + 1, len as int) =~= all_items.subrange(
                done as int,
                len as int,
            ).subrange(1, len - done));
            assert(key_texts(keys@).subrange(done as int + 1, len as int) =~= keys_before.subrange(
                done as int,
                len as int,
            ).subrange(1, len - done));
            assert(all_keys.subrange(done as int + 1, len as int) =~= all_keys.subrange(
                done as int,
                len as int,
            ).subrange(1, len - done));
        }
        done += 1;
    }
    proof {
        assert(items@.subrange(0, len as int) =~= items@);
        assert(key_texts(keys@).subrange(0, len as int) =~= key_texts(keys@));
        assert(all_items.subrange(0, len as int) =~= all_items);
        assert(all_keys.subrange(0, len as int) =~= all_keys);
    }
}

} // verus!
