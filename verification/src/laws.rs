//! What holds of the list's operations taken together, stated over the
//! sequences that the operations' contracts speak of.

use crate::linklist::{after_pop, lookup, popped};
use vstd::prelude::*;

verus! {

/// What is left of `s` after `n` removals of the last element in a row.
pub open spec fn after_pops<T>(s: Seq<T>, n: nat) -> Seq<T>
    decreases n,
{
    if n == 0 {
        s
    } else {
        after_pops(after_pop(s), (n - 1) as nat)
    }
}

/// The elements that `n` removals in a row hand out of `s`, in the order in
/// which they come out. A removal that finds nothing contributes nothing.
pub open spec fn drained<T>(s: Seq<T>, n: nat) -> Seq<T>
    decreases n,
{
    if n == 0 {
        Seq::empty()
    } else {
        match popped(s) {
            Some(elem) => seq![elem] + drained(after_pop(s), (n - 1) as nat),
            None => drained(after_pop(s), (n - 1) as nat),
        }
    }
}

/// An empty list has length zero, and a lookup finds nothing in it, whatever
/// the position.
pub proof fn lemma_empty_holds_nothing<T>(i: int)
    ensures
        Seq::<T>::empty().len() == 0,
        lookup(Seq::<T>::empty(), i) is None,
{
}

/// A lookup finds an element exactly at the positions below the length, and
/// there it finds the element that stands at that position.
pub proof fn lemma_lookup_bounds<T>(s: Seq<T>, i: int)
    ensures
        lookup(s, i) is Some <==> 0 <= i < s.len(),
        0 <= i < s.len() ==> lookup(s, i) == Some(s[i]),
        i >= s.len() ==> lookup(s, i) is None,
{
}

/// Appending makes the list one longer, puts the new element at the last
/// position and leaves every earlier position as it was.
pub proof fn lemma_push_appends<T>(s: Seq<T>, elem: T, i: int)
    ensures
        s.push(elem).len() == s.len() + 1,
        lookup(s.push(elem), s.push(elem).len() - 1) == Some(elem),
        0 <= i < s.len() ==> lookup(s.push(elem), i) == lookup(s, i),
{
}

/// Removing the last element undoes an append: it hands out the element that
/// was appended and leaves the list as it was before.
pub proof fn lemma_pop_undoes_push<T>(s: Seq<T>, elem: T)
    ensures
        popped(s.push(elem)) == Some(elem),
        after_pop(s.push(elem)) == s,
{
    assert(s.push(elem).drop_last() =~= s);
}

/// Removing from an empty list hands out nothing and leaves it empty, however
/// often it is done.
pub proof fn lemma_pop_on_empty_changes_nothing<T>(n: nat)
    ensures
        popped(Seq::<T>::empty()) is None,
        after_pop(Seq::<T>::empty()) == Seq::<T>::empty(),
        after_pops(Seq::<T>::empty(), n) == Seq::<T>::empty(),
        drained(Seq::<T>::empty(), n) == Seq::<T>::empty(),
    decreases n,
{
    if n > 0 {
        lemma_pop_on_empty_changes_nothing::<T>((n - 1) as nat);
    }
}

/// Removing the last element as many times as the list is long hands out its
/// elements in reverse order and leaves the list empty.
pub proof fn lemma_draining_reverses<T>(s: Seq<T>)
    ensures
        drained(s, s.len()) == s.reverse(),
        after_pops(s, s.len()) == Seq::<T>::empty(),
    decreases s.len(),
{
    if s.len() > 0 {
        lemma_draining_reverses(s.drop_last());
        assert(s.reverse() =~= seq![s.last()] + s.drop_last().reverse());
    } else {
        assert(s.reverse() =~= Seq::<T>::empty());
        assert(s =~= Seq::<T>::empty());
    }
}

} // verus!
