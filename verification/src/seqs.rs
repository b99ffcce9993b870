//! Facts about picking from the front of a sequence.

use vstd::prelude::*;

verus! {

/// Nothing is picked from the first none.
pub proof fn lemma_filter_none<T>(s: Seq<T>, p: spec_fn(T) -> bool)
    ensures
        s.take(0).filter(p) == Seq::<T>::empty(),
{
    reveal(Seq::filter);
}

/// What is picked from the first `i + 1` is what is picked from the first
/// `i`, and then entry `i` if it is picked.
pub proof fn lemma_filter_next<T>(s: Seq<T>, p: spec_fn(T) -> bool, i: int)
    requires
        0 <= i < s.len(),
    ensures
        s.take(i + 1).filter(p) == if p(s[i]) {
            s.take(i).filter(p).push(s[i])
        } else {
            s.take(i).filter(p)
        },
{
    reveal(Seq::filter);
    assert(s.take(i + 1).drop_last() =~= s.take(i));
}

/// Taking all of a sequence gives the sequence.
pub proof fn lemma_take_all<T>(s: Seq<T>)
    ensures
        s.take(s.len() as int) == s,
{
    assert(s.take(s.len() as int) =~= s);
}

/// Nothing is picked from a sequence of which no entry is picked.
pub proof fn lemma_filter_nothing<T>(s: Seq<T>, p: spec_fn(T) -> bool)
    requires
        forall|i: int| 0 <= i < s.len() ==> !p(#[trigger] s[i]),
    ensures
        s.filter(p) == Seq::<T>::empty(),
    decreases s.len(),
{
    reveal(Seq::filter);
    if s.len() > 0 {
        assert forall|i: int| 0 <= i < s.drop_last().len() implies !p(
            #[trigger] s.drop_last()[i],
        ) by {
            assert(s.drop_last()[i] == s[i]);
        }
        lemma_filter_nothing(s.drop_last(), p);
    }
}

/// What is picked from a sequence with one more entry put in is what is
/// picked before the entry, the entry if it is picked, and what is picked
/// behind it.
pub proof fn lemma_filter_insert<T>(s: Seq<T>, p: spec_fn(T) -> bool, k: int, e: T)
    requires
        0 <= k <= s.len(),
    ensures
        s.filter(p) == s.take(k).filter(p) + s.skip(k).filter(p),
        s.insert(k, e).filter(p) == if p(e) {
            s.take(k).filter(p).push(e) + s.skip(k).filter(p)
        } else {
            s.take(k).filter(p) + s.skip(k).filter(p)
        },
{
    reveal_with_fuel(Seq::filter, 2);
    let one = seq![e];
    assert(one.drop_last() =~= Seq::<T>::empty());
    assert(one.last() == e);
    assert(one.drop_last().filter(p) =~= Seq::<T>::empty());
    assert(one.filter(p) =~= if p(e) {
        one
    } else {
        Seq::<T>::empty()
    });
    assert(s =~= s.take(k) + s.skip(k));
    assert(s.insert(k, e) =~= (s.take(k) + one) + s.skip(k));
    Seq::filter_distributes_over_add(s.take(k), s.skip(k), p);
    Seq::filter_distributes_over_add(s.take(k) + one, s.skip(k), p);
    Seq::filter_distributes_over_add(s.take(k), one, p);
    if p(e) {
        assert(s.take(k).filter(p) + one =~= s.take(k).filter(p).push(e));
    } else {
        assert(s.take(k).filter(p) + Seq::<T>::empty() =~= s.take(k).filter(p));
    }
}

} // verus!
