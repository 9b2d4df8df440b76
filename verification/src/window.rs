use std::collections::VecDeque;
use vstd::prelude::*;

verus! {

broadcast use vstd::std_specs::vecdeque::group_vec_dequeue_axioms;

/// Appends `x` to `s` and, if that makes the sequence longer than `cap`,
/// drops its oldest element.
pub open spec fn push_bounded<A>(s: Seq<A>, x: A, cap: nat) -> Seq<A> {
    let t = s.push(x);
    if t.len() > cap {
        t.drop_first()
    } else {
        t
    }
}

/// The last `n` elements of `s` (all of `s` when it is no longer than `n`).
pub open spec fn last_n<A>(s: Seq<A>, n: nat) -> Seq<A> {
    if s.len() <= n {
        s
    } else {
        s.skip(s.len() - n)
    }
}

/// What a window of capacity `cap` holds after `items` were pushed into it,
/// one after the other, starting from an empty window.
pub open spec fn fill_window<A>(items: Seq<A>, cap: nat) -> Seq<A>
    decreases items.len(),
{
    if items.len() == 0 {
        Seq::empty()
    } else {
        push_bounded(fill_window(items.drop_last(), cap), items.last(), cap)
    }
}

/// A window that is within its capacity stays within it after a push, and
/// then holds the newest `cap` elements of what it held plus the new one.
pub proof fn lemma_push_bounded_keeps_capacity<A>(s: Seq<A>, x: A, cap: nat)
    requires
        s.len() <= cap,
    ensures
        push_bounded(s, x, cap).len() <= cap,
        push_bounded(s, x, cap) == last_n(s.push(x), cap),
{
    let t = s.push(x);
    if t.len() > cap {
        assert(t.drop_first() =~= t.skip(t.len() - cap));
    }
}

/// Pushing items one by one into an initially empty window of capacity `cap`
/// leaves exactly the newest `cap` of them, in the order they were pushed.
pub proof fn lemma_window_keeps_newest<A>(items: Seq<A>, cap: nat)
    ensures
        fill_window(items, cap) == last_n(items, cap),
        fill_window(items, cap).len() <= cap,
    decreases items.len(),
{
    if items.len() == 0 {
        assert(last_n(items, cap) =~= Seq::<A>::empty());
    } else {
        let prev = items.drop_last();
        lemma_window_keeps_newest(prev, cap);
        lemma_push_bounded_keeps_capacity(fill_window(prev, cap), items.last(), cap);
        let w = fill_window(prev, cap);
        assert(prev.push(items.last()) =~= items);
        if prev.len() <= cap {
            assert(w == prev);
        } else {
            let k = prev.len() - cap;
            assert(w.push(items.last()) =~= items.skip(k));
            assert(last_n(items.skip(k), cap) =~= last_n(items, cap));
        }
    }
}

/// Mapping every element commutes with a bounded push.
pub proof fn lemma_push_bounded_map<A, B>(s: Seq<A>, x: A, cap: nat, f: spec_fn(A) -> B)
    ensures
        push_bounded(s, x, cap).map_values(f) == push_bounded(s.map_values(f), f(x), cap),
{
    let t = s.push(x);
    assert(t.map_values(f) =~= s.map_values(f).push(f(x)));
    if t.len() > cap {
        assert(t.drop_first().map_values(f) =~= t.map_values(f).drop_first());
    }
}

/// Appends `x` at the back of `d` and, if `d` then holds more than `cap`
/// elements, removes the element at its front.
pub fn push_back_bounded<T>(d: &mut VecDeque<T>, x: T, cap: usize)
    ensures
        final(d)@ == push_bounded(old(d)@, x, cap as nat),
{
    d.push_back(x);
    if d.len() > cap {
        let _ = d.pop_front();
    }
}

} // verus!
