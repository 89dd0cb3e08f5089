//! Laws of the container, stated over the abstract sequence model and
//! proved once for all element types and all inputs. The contracts of the
//! operations describe each call in isolation; the proof functions here
//! state what whole call patterns amount to.

use crate::list::SinglyList;
use vstd::prelude::*;

verus! {

/// The content of a list after pushing the elements of `values` onto a
/// list whose content is `base`, in reverse order: `values.last()` is
/// pushed first and `values.first()` last, so each push prepends exactly
/// as `SinglyList::push` does.
pub open spec fn pushed_in_reverse<T>(values: Seq<T>, base: Seq<T>) -> Seq<T>
    decreases values.len(),
{
    if values.len() == 0 {
        base
    } else {
        seq![values[0]] + pushed_in_reverse(values.drop_first(), base)
    }
}

/// Pushing a sequence of values in reverse order onto any list prepends
/// that sequence to the list's content.
pub proof fn lemma_pushed_in_reverse<T>(values: Seq<T>, base: Seq<T>)
    ensures
        pushed_in_reverse(values, base) == values + base,
    decreases values.len(),
{
    if values.len() == 0 {
        assert(pushed_in_reverse(values, base) =~= values + base);
    } else {
        lemma_pushed_in_reverse(values.drop_first(), base);
        assert(pushed_in_reverse(values, base) =~= values + base);
    }
}

/// Round-trip: pushing a sequence of values in reverse order onto an
/// empty list yields exactly that sequence as the content, which the
/// read-only traversal then yields back in the original order.
pub proof fn lemma_round_trip<T>(values: Seq<T>)
    ensures
        pushed_in_reverse(values, Seq::empty()) == values,
{
    lemma_pushed_in_reverse(values, Seq::empty());
    assert(values + Seq::<T>::empty() =~= values);
}

/// Length invariant: on every well-formed list — and every list built by
/// `new` and the operations is well-formed — the maintained length
/// counter equals the number of elements of the content, that is, the
/// number of elements any traversal yields.
pub proof fn lemma_length_matches_content<T>(list: SinglyList<T>)
    requires
        list.wf(),
    ensures
        list.spec_len() == list@.len(),
{
}

/// Pop/push inverse: after popping `k` elements — which yields the first
/// `k` elements of the content, in order — pushing them back in
/// reverse-popped order restores the original content, and with it the
/// length, exactly.
pub proof fn lemma_pop_push_inverse<T>(content: Seq<T>, k: int)
    requires
        0 <= k <= content.len(),
    ensures
        pushed_in_reverse(content.take(k), content.skip(k)) == content,
{
    lemma_pushed_in_reverse(content.take(k), content.skip(k));
    assert(content.take(k) + content.skip(k) =~= content);
}

/// Head deletion agrees with pop: removing position `0` from a non-empty
/// content is the same as dropping its first element, so `delete(0)` and
/// `pop` leave the same list behind and return the same element.
pub proof fn lemma_delete_at_head_is_pop<T>(content: Seq<T>)
    requires
        content.len() > 0,
    ensures
        content.remove(0) == content.drop_first(),
{
    assert(content.remove(0) =~= content.drop_first());
}

} // verus!
