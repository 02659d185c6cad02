//! Stable sorting of a list by a text key, in the order of the keys' UTF-8
//! bytes.

use crate::text::lemma_lex_le_total;
use crate::text::lemma_lex_le_transitive;
use crate::text::lex_le;
use vstd::prelude::*;
use vstd::seq_lib::to_multiset_build;
use vstd::seq_lib::to_multiset_contains;
use vstd::utf8::encode_utf8;

verus! {

/// The order of texts: that of their UTF-8 bytes.
pub open spec fn text_le(a: Seq<char>, b: Seq<char>) -> bool {
    lex_le(encode_utf8(a), encode_utf8(b))
}

/// A sorted list with one more item, put behind every item whose key is not
/// greater.
pub open spec fn inserted_by<T>(list: Seq<T>, item: T, key: spec_fn(T) -> Seq<char>) -> Seq<T>
    decreases list.len(),
{
    if list.len() > 0 && !text_le(key(list.last()), key(item)) {
        inserted_by(list.drop_last(), item, key).push(list.last())
    } else {
        list.push(item)
    }
}

/// The items in ascending order of their keys; items with one key keep the
/// order they came in.
pub open spec fn sorted_by_key<T>(items: Seq<T>, key: spec_fn(T) -> Seq<char>) -> Seq<T>
    decreases items.len(),
{
    if items.len() == 0 {
        Seq::empty()
    } else {
        inserted_by(sorted_by_key(items.drop_last(), key), items.last(), key)
    }
}

/// Where `inserted_by` puts an item: at `pos`, if every item from there on has
/// a greater key and the one before has not.
pub proof fn lemma_inserted_by_at<T>(list: Seq<T>, item: T, key: spec_fn(T) -> Seq<char>, pos: int)
    requires
        0 <= pos <= list.len(),
        forall|k: int| pos <= k < list.len() ==> !text_le(key(#[trigger] list[k]), key(item)),
        pos > 0 ==> text_le(key(list[pos - 1]), key(item)),
    ensures
        inserted_by(list, item, key) == list.insert(pos, item),
    decreases list.len() - pos,
{
    if pos == list.len() {
        assert(list.push(item) =~= list.insert(pos, item));
    } else {
        let front = list.drop_last();
        assert forall|k: int| pos <= k < front.len() implies !text_le(
            key(#[trigger] front[k]),
            key(item),
        ) by {
            assert(front[k] == list[k]);
        }
        lemma_inserted_by_at(front, item, key, pos);
        assert(front.insert(pos, item).push(list.last()) =~= list.insert(pos, item));
    }
}

/// Whether a list is in ascending order of its keys.
pub open spec fn ascending_by<T>(list: Seq<T>, key: spec_fn(T) -> Seq<char>) -> bool {
    forall|i: int, j: int| 0 <= i < j < list.len() ==> text_le(key(list[i]), key(list[j]))
}

/// Putting an item into an ascending list leaves the list ascending, and adds
/// the item to what the list holds.
pub proof fn lemma_inserted_by<T>(list: Seq<T>, item: T, key: spec_fn(T) -> Seq<char>)
    requires
        ascending_by(list, key),
    ensures
        ascending_by(inserted_by(list, item, key), key),
        inserted_by(list, item, key).to_multiset() == list.to_multiset().insert(item),
        inserted_by(list, item, key).len() == list.len() + 1,
    decreases list.len(),
{
    if list.len() > 0 && !text_le(key(list.last()), key(item)) {
        let front = list.drop_last();
        let last = list.last();
        assert forall|i: int, j: int| 0 <= i < j < front.len() implies text_le(
            key(front[i]),
            key(front[j]),
        ) by {
            assert(front[i] == list[i] && front[j] == list[j]);
        }
        lemma_inserted_by(front, item, key);
        let mid = inserted_by(front, item, key);
        let out = mid.push(last);
        lemma_lex_le_total(encode_utf8(key(last)), encode_utf8(key(item)));
        assert forall|i: int, j: int| 0 <= i < j < out.len() implies text_le(
            key(out[i]),
            key(out[j]),
        ) by {
            if j == out.len() - 1 {
                to_multiset_contains(mid, mid[i]);
                assert(mid.contains(mid[i]));
                if mid[i] == item {
                } else {
                    assert(front.to_multiset().count(mid[i]) > 0);
                    to_multiset_contains(front, mid[i]);
                    let k = choose|k: int| 0 <= k < front.len() && front[k] == mid[i];
                    assert(front[k] == list[k]);
                    assert(text_le(key(list[k]), key(list[list.len() - 1])));
                }
            }
        }
        to_multiset_build(mid, last);
        to_multiset_build(front, last);
        assert(front.push(last) == list);
        assert(out.to_multiset() =~= list.to_multiset().insert(item));
    } else {
        let out = list.push(item);
        assert forall|i: int, j: int| 0 <= i < j < out.len() implies text_le(
            key(out[i]),
            key(out[j]),
        ) by {
            if j == out.len() - 1 {
                assert(out[i] == list[i]);
                if i == list.len() - 1 {
                } else {
                    assert(text_le(key(list[i]), key(list[list.len() - 1])));
                    lemma_lex_le_transitive(
                        encode_utf8(key(list[i])),
                        encode_utf8(key(list.last())),
                        encode_utf8(key(item)),
                    );
                }
            } else {
                assert(out[i] == list[i] && out[j] == list[j]);
            }
        }
        to_multiset_build(list, item);
    }
}

/// The sorted items are in ascending order of their keys and are the items
/// that came in, each as often as it came.
pub proof fn lemma_sorted_by_key<T>(items: Seq<T>, key: spec_fn(T) -> Seq<char>)
    ensures
        ascending_by(sorted_by_key(items, key), key),
        sorted_by_key(items, key).to_multiset() == items.to_multiset(),
        sorted_by_key(items, key).len() == items.len(),
    decreases items.len(),
{
    if items.len() == 0 {
        assert(items =~= Seq::<T>::empty());
    } else {
        lemma_sorted_by_key(items.drop_last(), key);
        lemma_inserted_by(sorted_by_key(items.drop_last(), key), items.last(), key);
        to_multiset_build(items.drop_last(), items.last());
        assert(items.drop_last().push(items.last()) == items);
    }
}

} // verus!
