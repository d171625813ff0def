//! The order of texts: by the bytes of their UTF-8 encoding, as the standard
//! library compares strings.

use vstd::prelude::*;
use vstd::string::*;
use vstd::utf8::encode_utf8;

verus! {

/// Whether `a` comes before `b`, or is equal to it, in the order of byte strings:
/// at the first place where they differ the lower byte decides, and a string
/// comes before those that it starts.
pub open spec fn bytes_le(a: Seq<u8>, b: Seq<u8>) -> bool
    decreases a.len(),
{
    if a.len() == 0 {
        true
    } else if b.len() == 0 {
        false
    } else if a[0] != b[0] {
        a[0] < b[0]
    } else {
        bytes_le(a.drop_first(), b.drop_first())
    }
}

/// Whether the text `a` comes before the text `b`, or is equal to it.
pub open spec fn text_le(a: Seq<char>, b: Seq<char>) -> bool {
    bytes_le(encode_utf8(a), encode_utf8(b))
}

/// Of two byte strings one comes before the other, or they are equal.
pub proof fn lemma_bytes_le_total(a: Seq<u8>, b: Seq<u8>)
    ensures
        bytes_le(a, b) || bytes_le(b, a),
        bytes_le(a, b) && bytes_le(b, a) ==> a == b,
    decreases a.len(),
{
    if a.len() > 0 && b.len() > 0 && a[0] == b[0] {
        lemma_bytes_le_total(a.drop_first(), b.drop_first());
        if bytes_le(a, b) && bytes_le(b, a) {
            assert(a =~= seq![a[0]] + a.drop_first());
            assert(b =~= seq![b[0]] + b.drop_first());
        }
    } else if a.len() == 0 && b.len() == 0 {
        assert(a =~= b);
    }
}

/// What comes before something that comes before a third comes before the third.
pub proof fn lemma_bytes_le_transitive(a: Seq<u8>, b: Seq<u8>, c: Seq<u8>)
    requires
        bytes_le(a, b),
        bytes_le(b, c),
    ensures
        bytes_le(a, c),
    decreases a.len(),
{
    if a.len() > 0 && b.len() > 0 && c.len() > 0 && a[0] == b[0] && b[0] == c[0] {
        lemma_bytes_le_transitive(a.drop_first(), b.drop_first(), c.drop_first());
    }
}

fn bytes_at_most(a: &[u8], b: &[u8]) -> (le: bool)
    ensures
        le == bytes_le(a@, b@),
{
    let mut i: usize = 0;
    assert(a@.skip(0) =~= a@ && b@.skip(0) =~= b@);
    while i < a.len() && i < b.len()
        invariant
            i <= a@.len(),
            i <= b@.len(),
            bytes_le(a@, b@) == bytes_le(a@.skip(i as int), b@.skip(i as int)),
        decreases a@.len() - i,
    {
        if a[i] != b[i] {
            return a[i] < b[i];
        }
        assert(a@.skip(i as int).drop_first() =~= a@.skip(i + 1));
        assert(b@.skip(i as int).drop_first() =~= b@.skip(i + 1));
        i += 1;
    }
    i == a.len()
}

/// Whether the text `a` comes before the text `b`, or is equal to it.
pub fn text_at_most(a: &str, b: &str) -> (le: bool)
    ensures
        le == text_le(a@, b@),
{
    bytes_at_most(a.as_bytes(), b.as_bytes())
}

/// `sorted` with `x` put in: behind every item that `le` puts before `x` or
/// lets stand on either side of it.
pub open spec fn inserted<T>(sorted: Seq<T>, x: T, le: spec_fn(T, T) -> bool) -> Seq<T>
    decreases sorted.len(),
{
    if sorted.len() > 0 && !le(sorted.last(), x) {
        inserted(sorted.drop_last(), x, le).push(sorted.last())
    } else {
        sorted.push(x)
    }
}

/// The items of a list in the order of `le`. Items that may stand on either
/// side of each other keep the order that they had.
pub open spec fn in_order<T>(list: Seq<T>, le: spec_fn(T, T) -> bool) -> Seq<T>
    decreases list.len(),
{
    if list.len() == 0 {
        list
    } else {
        inserted(in_order(list.drop_last(), le), list.last(), le)
    }
}

/// Whether `le` puts each item of a list before those behind it, or lets it
/// stand on either side of them.
pub open spec fn is_ordered<T>(list: Seq<T>, le: spec_fn(T, T) -> bool) -> bool {
    forall|i: int, j: int| 0 <= i < j < list.len() ==> le(list[i], list[j])
}

/// Whether `le` compares any two items one way or the other, and carries over
/// from one item to a third by way of a second.
pub open spec fn is_total_preorder<T>(le: spec_fn(T, T) -> bool) -> bool {
    &&& forall|a: T, b: T| #[trigger] le(a, b) || le(b, a)
    &&& forall|a: T, b: T, c: T| #[trigger] le(a, b) && #[trigger] le(b, c) ==> le(a, c)
}

/// Where `x` is put into `sorted`: at the place behind which every item has to
/// come after `x`, and before which stands one that has not.
pub proof fn lemma_inserted<T>(sorted: Seq<T>, x: T, le: spec_fn(T, T) -> bool, place: int)
    requires
        0 <= place <= sorted.len(),
        forall|j: int| place <= j < sorted.len() ==> !le(sorted[j], x),
        place > 0 ==> le(sorted[place - 1], x),
    ensures
        inserted(sorted, x, le) == sorted.insert(place, x),
    decreases sorted.len(),
{
    if sorted.len() > 0 && !le(sorted.last(), x) {
        lemma_inserted(sorted.drop_last(), x, le, place);
        assert(sorted.drop_last().insert(place, x).push(sorted.last()) =~= sorted.insert(place, x));
    } else {
        assert(sorted.push(x) =~= sorted.insert(place, x));
    }
}

/// Putting an item into an ordered list leaves it ordered, and changes nothing
/// but that the item is in it.
pub proof fn lemma_inserted_is_ordered<T>(sorted: Seq<T>, x: T, le: spec_fn(T, T) -> bool)
    requires
        is_total_preorder(le),
        is_ordered(sorted, le),
    ensures
        is_ordered(inserted(sorted, x, le), le),
        inserted(sorted, x, le).to_multiset() == sorted.to_multiset().insert(x),
    decreases sorted.len(),
{
    broadcast use vstd::seq_lib::group_to_multiset_ensures;

    let result = inserted(sorted, x, le);
    if sorted.len() > 0 && !le(sorted.last(), x) {
        let rest = sorted.drop_last();
        let last = sorted.last();
        assert(is_ordered(rest, le)) by {
            assert forall|i: int, j: int| 0 <= i < j < rest.len() implies le(rest[i], rest[j]) by {
                assert(le(sorted[i], sorted[j]));
            }
        }
        lemma_inserted_is_ordered(rest, x, le);
        let inner = inserted(rest, x, le);
        assert(sorted =~= rest.push(last));
        assert(le(x, last) || le(last, x));
        assert forall|i: int, j: int| 0 <= i < j < result.len() implies le(
            result[i],
            result[j],
        ) by {
            if j < inner.len() {
                assert(le(inner[i], inner[j]));
            } else {
                assert(inner.to_multiset().count(inner[i]) > 0);
                if inner[i] != x {
                    assert(rest.to_multiset().count(inner[i]) > 0);
                    assert(rest.contains(inner[i]));
                    let k = choose|k: int| 0 <= k < rest.len() && rest[k] == inner[i];
                    assert(le(sorted[k], sorted[sorted.len() - 1]));
                }
            }
        }
        assert(result.to_multiset() =~= sorted.to_multiset().insert(x));
    } else {
        assert forall|i: int, j: int| 0 <= i < j < result.len() implies le(
            result[i],
            result[j],
        ) by {
            if j < sorted.len() {
                assert(le(sorted[i], sorted[j]));
            } else if sorted.len() > 0 {
                if i < sorted.len() - 1 {
                    assert(le(sorted[i], sorted[sorted.len() - 1]));
                    assert(le(sorted.last(), x));
                }
            }
        }
    }
}

/// The items in the order of `le` are the same items, each as often as before,
/// and ordered.
pub proof fn lemma_in_order_sorts<T>(list: Seq<T>, le: spec_fn(T, T) -> bool)
    requires
        is_total_preorder(le),
    ensures
        is_ordered(in_order(list, le), le),
        in_order(list, le).to_multiset() == list.to_multiset(),
    decreases list.len(),
{
    broadcast use vstd::seq_lib::group_to_multiset_ensures;

    if list.len() > 0 {
        lemma_in_order_sorts(list.drop_last(), le);
        lemma_inserted_is_ordered(in_order(list.drop_last(), le), list.last(), le);
        assert(list =~= list.drop_last().push(list.last()));
    }
}

} // verus!
