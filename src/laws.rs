//! Laws that relate the queue operations to one another, stated over the
//! contents that the operations' own contracts describe.
use vstd::prelude::*;

use crate::queue::{back, front, inserted, pushed, unshifted, without_back, without_front};

verus! {

/// The contents after pushing each element of `vs`, in order, onto `s` in a
/// buffer of `cap` slots.
pub open spec fn push_each<T>(s: Seq<T>, cap: nat, vs: Seq<T>) -> Seq<T>
    decreases vs.len(),
{
    if vs.len() == 0 {
        s
    } else {
        pushed(push_each(s, cap, vs.drop_last()), cap, vs.last())
    }
}

/// Pushing values one at a time onto an empty queue with room for all of
/// them leaves exactly those values: the length is the number of pushes, and
/// position `i` holds the `i`-th value pushed.
pub proof fn lemma_pushes_in_order<T>(cap: nat, vs: Seq<T>)
    requires
        vs.len() <= cap,
    ensures
        push_each(Seq::<T>::empty(), cap, vs) == vs,
        push_each(Seq::<T>::empty(), cap, vs).len() == vs.len(),
        forall|i: int| 0 <= i < vs.len() ==> push_each(Seq::<T>::empty(), cap, vs)[i] == vs[i],
    decreases vs.len(),
{
    if vs.len() > 0 {
        lemma_pushes_in_order(cap, vs.drop_last());
        assert(vs.drop_last().push(vs.last()) =~= vs);
    }
}

/// Popping right after a push on a queue that had room gives back the
/// pushed value and the contents from before the push.
pub proof fn lemma_push_then_pop<T>(s: Seq<T>, cap: nat, v: T)
    requires
        s.len() < cap,
    ensures
        back(pushed(s, cap, v)) == Some(v),
        without_back(pushed(s, cap, v)) == s,
{
    assert(s.push(v).drop_last() =~= s);
}

/// Shifting right after an unshift on a queue that had room gives back the
/// unshifted value and the contents, length and order, from before.
pub proof fn lemma_unshift_then_shift<T>(s: Seq<T>, cap: nat, v: T)
    requires
        s.len() < cap,
    ensures
        front(unshifted(s, cap, v)) == Some(v),
        without_front(unshifted(s, cap, v)) == s,
{
    assert((seq![v] + s).drop_first() =~= s);
}

/// Removing at `index` right after inserting `v` there, on a queue that had
/// room, gives back `v` and the contents from before the insert.
pub proof fn lemma_insert_then_remove<T>(s: Seq<T>, cap: nat, index: int, v: T)
    requires
        0 <= index <= s.len() < cap,
    ensures
        index < inserted(s, cap, index, v).len(),
        inserted(s, cap, index, v)[index] == v,
        inserted(s, cap, index, v).remove(index) == s,
{
    assert(s.insert(index, v).remove(index) =~= s);
}

/// Taking from either end of an empty queue gives nothing and leaves it
/// empty.
pub proof fn lemma_take_from_empty<T>(s: Seq<T>)
    requires
        s.len() == 0,
    ensures
        back(s) == None::<T>,
        without_back(s) == s,
        front(s) == None::<T>,
        without_front(s) == s,
{
}

} // verus!
