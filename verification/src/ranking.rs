//! The order in which the planets that hold the resource sought are listed:
//! richest deposit first, and among equally rich ones the one found first.

use crate::entities::{Planet, PlanetView, Resource, ResourceView};
use crate::seqs::{lemma_filter_insert, lemma_filter_nothing};
use vstd::prelude::*;

verus! {

/// A planet that fits, with the deposit of the resource sought on it.
pub type Hit = (Planet, Resource);

/// A hit as plain values.
pub type HitView = (PlanetView, ResourceView);

/// The plain values of a list of hits.
pub open spec fn hit_views(s: Seq<Hit>) -> Seq<HitView> {
    s.map_values(|h: Hit| (h.0@, h.1@))
}

/// Whether a list runs from the richest deposit to the poorest.
pub open spec fn descending(s: Seq<HitView>) -> bool {
    forall|i: int, j: int| 0 <= i < j < s.len() ==> s[i].1.factor >= s[j].1.factor
}

/// The first position at or after `from` whose deposit is poorer than
/// `factor`, or the length of the list if there is none.
pub open spec fn slot_from(s: Seq<HitView>, factor: i64, from: int) -> int
    decreases s.len() - from,
{
    if from >= s.len() || s[from].1.factor < factor {
        from
    } else {
        slot_from(s, factor, from + 1)
    }
}

/// A ranked list with one more hit, placed behind every deposit that is at
/// least as rich.
pub open spec fn placed(s: Seq<HitView>, h: HitView) -> Seq<HitView> {
    s.insert(slot_from(s, h.1.factor, 0), h)
}

/// The hits in rank: each in turn placed among those before it.
pub open spec fn ranked(hits: Seq<HitView>) -> Seq<HitView>
    decreases hits.len(),
{
    if hits.len() == 0 {
        Seq::empty()
    } else {
        placed(ranked(hits.drop_last()), hits.last())
    }
}

/// Where a list is descending, the slot found for a deposit parts the
/// entries at least as rich, before it, from the poorer ones, behind it.
pub proof fn lemma_slot_parts(s: Seq<HitView>, factor: i64, from: int)
    requires
        descending(s),
        0 <= from <= s.len(),
    ensures
        from <= slot_from(s, factor, from) <= s.len(),
        forall|j: int| from <= j < slot_from(s, factor, from) ==> s[j].1.factor >= factor,
        forall|j: int| slot_from(s, factor, from) <= j < s.len() ==> s[j].1.factor < factor,
    decreases s.len() - from,
{
    if from >= s.len() || s[from].1.factor < factor {
    } else {
        lemma_slot_parts(s, factor, from + 1);
    }
}

/// Placing a hit in a descending list leaves it descending.
pub proof fn lemma_placed_descending(s: Seq<HitView>, h: HitView)
    requires
        descending(s),
    ensures
        descending(placed(s, h)),
        placed(s, h).len() == s.len() + 1,
{
    lemma_slot_parts(s, h.1.factor, 0);
    let k = slot_from(s, h.1.factor, 0);
    let t = placed(s, h);
    assert forall|i: int, j: int| 0 <= i < j < t.len() implies t[i].1.factor >= t[j].1.factor by {
        if i < k {
            assert(t[i] == s[i]);
        } else if i > k {
            assert(t[i] == s[i - 1]);
        }
        if j < k {
            assert(t[j] == s[j]);
        } else if j > k {
            assert(t[j] == s[j - 1]);
        }
    }
}

/// The ranked list is descending: no deposit is richer than one before it.
pub proof fn lemma_ranked_descending(hits: Seq<HitView>)
    ensures
        descending(ranked(hits)),
        ranked(hits).len() == hits.len(),
    decreases hits.len(),
{
    if hits.len() > 0 {
        lemma_ranked_descending(hits.drop_last());
        lemma_placed_descending(ranked(hits.drop_last()), hits.last());
    }
}

/// Ranking neither adds nor drops a hit: the ranked list holds each hit as
/// often as the list it was made from.
pub proof fn lemma_ranked_permutes(hits: Seq<HitView>)
    ensures
        ranked(hits).to_multiset() == hits.to_multiset(),
    decreases hits.len(),
{
    if hits.len() > 0 {
        let rest = ranked(hits.drop_last());
        lemma_ranked_permutes(hits.drop_last());
        lemma_ranked_descending(hits.drop_last());
        lemma_slot_parts(rest, hits.last().1.factor, 0);
        let k = slot_from(rest, hits.last().1.factor, 0);
        vstd::seq_lib::to_multiset_insert(rest, k, hits.last());
        vstd::seq_lib::to_multiset_build(hits.drop_last(), hits.last());
        assert(hits =~= hits.drop_last().push(hits.last()));
    } else {
        assert(hits =~= Seq::empty());
    }
}

/// The hits of a list whose deposits are exactly so rich, in their order.
pub open spec fn of_factor(s: Seq<HitView>, factor: i64) -> Seq<HitView> {
    s.filter(|h: HitView| h.1.factor == factor)
}

/// Ranking keeps equally rich hits in the order in which they were found:
/// the hits of any one richness stand in the ranked list as they stood in
/// the list it was made from.
pub proof fn lemma_ranked_keeps_order(hits: Seq<HitView>, factor: i64)
    ensures
        of_factor(ranked(hits), factor) == of_factor(hits, factor),
    decreases hits.len(),
{
    let same = |h: HitView| h.1.factor == factor;
    if hits.len() > 0 {
        let rest = hits.drop_last();
        let h = hits.last();
        let r = ranked(rest);
        lemma_ranked_keeps_order(rest, factor);
        lemma_ranked_descending(rest);
        lemma_slot_parts(r, h.1.factor, 0);
        let k = slot_from(r, h.1.factor, 0);
        lemma_filter_insert(r, same, k, h);
        assert(hits.filter(same) == if same(h) {
            rest.filter(same).push(h)
        } else {
            rest.filter(same)
        }) by {
            reveal(Seq::filter);
        }
        if same(h) {
            assert forall|i: int| 0 <= i < r.skip(k).len() implies !same(
                #[trigger] r.skip(k)[i],
            ) by {
                assert(r.skip(k)[i] == r[k + i]);
            }
            lemma_filter_nothing(r.skip(k), same);
            assert(r.take(k).filter(same) + Seq::<HitView>::empty() =~= r.take(k).filter(same));
            assert(r.take(k).filter(same).push(h) + Seq::<HitView>::empty() =~= r.take(k).filter(
                same,
            ).push(h));
        }
    } else {
        assert(ranked(hits) =~= hits);
    }
}

/// Ranks a list of hits: the same hits, from the richest deposit to the
/// poorest, equally rich ones in the order in which they stood.
pub fn rank(hits: Vec<Hit>) -> (out: Vec<Hit>)
    ensures
        hit_views(out@) == ranked(hit_views(hits@)),
        descending(hit_views(out@)),
        hit_views(out@).to_multiset() == hit_views(hits@).to_multiset(),
        forall|factor: i64|
            #[trigger] of_factor(hit_views(out@), factor) == of_factor(hit_views(hits@), factor),
{
    let mut out: Vec<Hit> = Vec::new();
    let ghost all = hit_views(hits@);
    proof {
        lemma_ranked_descending(all);
        lemma_ranked_permutes(all);
        assert forall|factor: i64| #[trigger]
            of_factor(ranked(all), factor) == of_factor(all, factor) by {
            lemma_ranked_keeps_order(all, factor);
        }
    }
    for h in it: hits
        invariant
            it.seq() == hits@,
            all == hit_views(hits@),
            hit_views(out@) == ranked(all.take(it.index())),
    {
        let ghost i = it.index();
        let ghost before = hit_views(out@);
        proof {
            lemma_ranked_descending(all.take(i));
            assert(all.take(i + 1).drop_last() =~= all.take(i));
        }
        let mut k: usize = 0;
        while k < out.len() && out[k].1.factor >= h.1.factor
            invariant
                0 <= k <= out.len(),
                before == hit_views(out@),
                slot_from(before, h.1.factor, 0) == slot_from(before, h.1.factor, k as int),
            decreases out.len() - k,
        {
            k += 1;
        }
        out.insert(k, h);
    }
    proof {
        assert(all.take(hits@.len() as int) =~= all);
    }
    out
}

} // verus!
