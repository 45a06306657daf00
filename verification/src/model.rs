use vstd::prelude::*;

verus! {

/// The value one pop returns from a stack holding `s` (bottom first):
/// the last committed value, or nothing when the stack is empty.
pub open spec fn pop_result<T>(s: Seq<T>) -> Option<T> {
    if s.len() == 0 {
        None
    } else {
        Some(s.last())
    }
}

/// The contents left behind by one pop on a stack holding `s`: unchanged
/// when empty, otherwise the stack without its top.
pub open spec fn pop_rest<T>(s: Seq<T>) -> Seq<T> {
    if s.len() == 0 {
        s
    } else {
        s.drop_last()
    }
}

/// The values `count` pops in a row return, in pop order, when drained
/// from a stack holding `s`; pops past exhaustion return nothing and
/// contribute nothing.
pub open spec fn drained<T>(s: Seq<T>, count: nat) -> Seq<T>
    decreases count,
{
    if count == 0 || s.len() == 0 {
        Seq::<T>::empty()
    } else {
        seq![s.last()] + drained(pop_rest(s), (count - 1) as nat)
    }
}

/// The contents left after `count` pops in a row on a stack holding `s`.
pub open spec fn remaining<T>(s: Seq<T>, count: nat) -> Seq<T>
    decreases count,
{
    if count == 0 {
        s
    } else {
        remaining(pop_rest(s), (count - 1) as nat)
    }
}

/// Round trip: a pop directly after a push returns the pushed value and
/// leaves the contents the stack held before the push.
pub proof fn lemma_push_pop_round_trip<T>(s: Seq<T>, v: T)
    ensures
        pop_result(s.push(v)) == Some(v),
        pop_rest(s.push(v)) == s,
{
    assert(s.push(v).drop_last() =~= s);
}

/// Sequential LIFO order: draining a stack that holds `s` returns the
/// values of `s` in reverse — the i-th pop returns the value pushed
/// (len - 1 - i)-th, so the pops read `vk, v(k-1), ..., v1` after pushes
/// `v1, ..., vk`.
pub proof fn lemma_lifo_drain_order<T>(s: Seq<T>)
    ensures
        drained(s, s.len()) == s.reverse(),
        drained(s, s.len()).len() == s.len(),
        forall|i: int| 0 <= i < s.len() ==> drained(s, s.len())[i] == s[s.len() - 1 - i],
    decreases s.len(),
{
    if s.len() == 0 {
        assert(drained(s, s.len()) =~= s.reverse());
    } else {
        lemma_lifo_drain_order(s.drop_last());
        let r = seq![s.last()] + s.drop_last().reverse();
        assert(drained(s, s.len()) == r);
        assert forall|i: int| 0 <= i < s.len() implies r[i] == s[s.len() - 1 - i] by {
            if i > 0 {
                assert(r[i] == s.drop_last().reverse()[i - 1]);
                assert(s.drop_last().reverse()[i - 1] == s.drop_last()[s.len() - 1 - i]);
            }
        }
        assert(r =~= s.reverse());
    }
}

/// After as many pops as the stack holds values, the stack is empty and
/// one more pop returns nothing.
pub proof fn lemma_drain_exhausts<T>(s: Seq<T>)
    ensures
        remaining(s, s.len()) == Seq::<T>::empty(),
        pop_result(remaining(s, s.len())) is None,
    decreases s.len(),
{
    if s.len() > 0 {
        lemma_drain_exhausts(s.drop_last());
        assert(remaining(s, s.len()) == remaining(s.drop_last(), (s.len() - 1) as nat));
    }
}

/// Conservation: draining a stack returns exactly the values it held —
/// as a multiset nothing is lost and nothing is duplicated, whatever the
/// order the values went in.
pub proof fn lemma_drain_conserves_values<T>(s: Seq<T>)
    ensures
        drained(s, s.len()).to_multiset() == s.to_multiset(),
{
    lemma_lifo_drain_order(s);
    s.lemma_reverse_to_multiset();
}

} // verus!
