//! One pass of the filters over a universe: which planets fit, which
//! deposits are of the resource sought, and what that makes of each star.

use crate::entities::{
    Planet, PlanetView, Resource, ResourceView, Star, StarView, planet_passes, planet_views,
    resource_views, star_views,
};
use crate::fixed::UNIT;
use crate::lookup::{
    find_planet_by_nat_id, find_star_by_sys_id, first_index, planet_nat_ids, star_sys_ids,
};
use crate::options::{Filters, FiltersView, ticker_view};
use crate::ranking::{Hit, HitView, hit_views};
use crate::seqs::{lemma_filter_next, lemma_filter_none, lemma_take_all};
use vstd::prelude::*;

verus! {

/// The planets, each marked by whether its environment fits the filters.
pub open spec fn screened(planets: Seq<PlanetView>, f: FiltersView) -> Seq<PlanetView> {
    planets.map_values(|p: PlanetView| PlanetView { filtered: planet_passes(p, f), ..p })
}

/// The resources, each marked by whether it is of the kind sought.
pub open spec fn sought(resources: Seq<ResourceView>, ticker: Option<Seq<char>>) -> Seq<
    ResourceView,
> {
    resources.map_values(|r: ResourceView| ResourceView { filtered: ticker == Some(r.ticker), ..r })
}

/// Whether every planet is marked as fitting.
pub open spec fn all_fitting(planets: Seq<PlanetView>) -> bool {
    forall|i: int| 0 <= i < planets.len() ==> (#[trigger] planets[i]).filtered
}

/// Whether no rocky planet is marked as fitting.
pub open spec fn no_rocky_fitting(planets: Seq<PlanetView>) -> bool {
    forall|i: int| 0 <= i < planets.len() && (#[trigger] planets[i]).surface ==> !planets[i].filtered
}

/// The planets that are marked as fitting.
pub open spec fn fitting(planets: Seq<PlanetView>) -> Seq<PlanetView> {
    planets.filter(|p: PlanetView| p.filtered)
}

/// The resources that are marked as sought.
pub open spec fn marked(resources: Seq<ResourceView>) -> Seq<ResourceView> {
    resources.filter(|r: ResourceView| r.filtered)
}

/// The stars at which the last pass found something.
pub open spec fn lit(stars: Seq<StarView>) -> Seq<StarView> {
    stars.filter(|s: StarView| s.res_factor > 0)
}

/// What a deposit adds to the list of hits: itself with the planet that
/// holds it, if it is marked as sought and that planet is marked as fitting.
pub open spec fn hit_of(planets: Seq<PlanetView>, r: ResourceView) -> Option<HitView> {
    if r.filtered {
        match first_index(planet_nat_ids(planets), r.planet) {
            Some(i) => if planets[i].filtered {
                Some((planets[i], r))
            } else {
                None
            },
            None => None,
        }
    } else {
        None
    }
}

/// The hits that the first `n` resources give, in the order of the resources.
pub open spec fn hits_among(planets: Seq<PlanetView>, resources: Seq<ResourceView>, n: int) -> Seq<
    HitView,
>
    decreases n,
{
    if n <= 0 {
        Seq::empty()
    } else {
        let before = hits_among(planets, resources, n - 1);
        match hit_of(planets, resources[n - 1]) {
            Some(h) => before.push(h),
            None => before,
        }
    }
}

/// Whether a hit lies in the system of star `k`.
pub open spec fn hit_at(stars: Seq<StarView>, h: HitView, k: int) -> bool {
    first_index(star_sys_ids(stars), h.0.sys_id) == Some(k)
}

/// The richest deposit among the hits that the first `n` resources give in
/// the system of star `k`; zero where there is none, and never below zero.
pub open spec fn best_factor(
    stars: Seq<StarView>,
    planets: Seq<PlanetView>,
    resources: Seq<ResourceView>,
    k: int,
    n: int,
) -> i64
    decreases n,
{
    if n <= 0 {
        0
    } else {
        let before = best_factor(stars, planets, resources, k, n - 1);
        match hit_of(planets, resources[n - 1]) {
            Some(h) => if hit_at(stars, h, k) && h.1.factor > before {
                h.1.factor
            } else {
                before
            },
            None => before,
        }
    }
}

/// Whether one of the first `n` planets is marked as fitting and lies in the
/// system of star `k`.
pub open spec fn hosts_fitting(
    stars: Seq<StarView>,
    planets: Seq<PlanetView>,
    k: int,
    n: int,
) -> bool {
    exists|i: int|
        0 <= i < n && i < planets.len() && (#[trigger] planets[i]).filtered && first_index(
            star_sys_ids(stars),
            planets[i].sys_id,
        ) == Some(k)
}

/// The stars after the first `n` resources have been looked at, where a
/// resource is sought.
pub open spec fn rated_by_deposit(
    stars: Seq<StarView>,
    planets: Seq<PlanetView>,
    resources: Seq<ResourceView>,
    n: int,
) -> Seq<StarView> {
    Seq::new(
        stars.len(),
        |k: int| StarView { res_factor: best_factor(stars, planets, resources, k, n), ..stars[k] },
    )
}

/// The stars after the first `n` planets have been looked at, where no
/// resource is sought.
pub open spec fn rated_by_planet(stars: Seq<StarView>, planets: Seq<PlanetView>, n: int) -> Seq<
    StarView,
> {
    Seq::new(
        stars.len(),
        |k: int|
            StarView {
                res_factor: if hosts_fitting(stars, planets, k, n) {
                    UNIT
                } else {
                    0
                },
                ..stars[k]
            },
    )
}

/// Whether every planet names a star that is on record, and every resource a
/// planet that is.
pub open spec fn links_resolve(
    stars: Seq<StarView>,
    planets: Seq<PlanetView>,
    resources: Seq<ResourceView>,
) -> bool {
    &&& forall|i: int|
        0 <= i < planets.len() ==> first_index(
            star_sys_ids(stars),
            (#[trigger] planets[i]).sys_id,
        ) is Some
    &&& forall|j: int|
        0 <= j < resources.len() ==> first_index(
            planet_nat_ids(planets),
            (#[trigger] resources[j]).planet,
        ) is Some
}

/// Marks each planet by whether it fits, and counts those that do.
pub fn screen_planets(planets: &mut Vec<Planet>, filters: &Filters) -> (count: usize)
    ensures
        planet_views(final(planets)@) == screened(planet_views(old(planets)@), filters@),
        count == fitting(planet_views(final(planets)@)).len(),
{
    let ghost before = planet_views(planets@);
    let ghost after = screened(before, filters@);
    let n = planets.len();
    let mut count: usize = 0;
    let mut i: usize = 0;
    proof {
        lemma_filter_none(after, |p: PlanetView| p.filtered);
    }
    while i < n
        invariant
            0 <= i <= n,
            n == planets.len(),
            before.len() == n,
            after == screened(before, filters@),
            forall|j: int| 0 <= j < i ==> (#[trigger] planets@[j])@ == after[j],
            forall|j: int| i <= j < n ==> (#[trigger] planets@[j])@ == before[j],
            count == fitting(after.take(i as int)).len(),
            count <= i,
        decreases n - i,
    {
        let passed = planets[i].apply_filters(filters);
        proof {
            lemma_filter_next(after, |p: PlanetView| p.filtered, i as int);
        }
        if passed {
            count += 1;
        }
        i += 1;
    }
    proof {
        lemma_take_all(after);
    }
    count
}

/// Marks each resource by whether it is of the kind sought, and counts those
/// that are.
pub fn mark_sought(resources: &mut Vec<Resource>, ticker: &Option<String>) -> (count: usize)
    ensures
        resource_views(final(resources)@) == sought(
            resource_views(old(resources)@),
            ticker_view(*ticker),
        ),
        count == marked(resource_views(final(resources)@)).len(),
{
    let ghost before = resource_views(resources@);
    let ghost after = sought(before, ticker_view(*ticker));
    let n = resources.len();
    let mut count: usize = 0;
    let mut j: usize = 0;
    proof {
        lemma_filter_none(after, |r: ResourceView| r.filtered);
    }
    while j < n
        invariant
            0 <= j <= n,
            n == resources.len(),
            before.len() == n,
            after == sought(before, ticker_view(*ticker)),
            forall|i: int| 0 <= i < j ==> (#[trigger] resources@[i])@ == after[i],
            forall|i: int| j <= i < n ==> (#[trigger] resources@[i])@ == before[i],
            count == marked(after.take(j as int)).len(),
            count <= j,
        decreases n - j,
    {
        let is_sought = match ticker {
            Some(t) => resources[j].ticker == *t,
            None => false,
        };
        resources[j].filtered = is_sought;
        proof {
            lemma_filter_next(after, |r: ResourceView| r.filtered, j as int);
        }
        if is_sought {
            count += 1;
        }
        j += 1;
    }
    proof {
        lemma_take_all(after);
    }
    count
}

/// The stars with nothing found at any.
pub open spec fn unrated(stars: Seq<StarView>) -> Seq<StarView> {
    stars.map_values(|s: StarView| StarView { res_factor: 0, ..s })
}

/// Sets what was found at each star back to nothing.
pub fn reset_stars(stars: &mut Vec<Star>)
    ensures
        star_views(final(stars)@) == unrated(star_views(old(stars)@)),
{
    let ghost before = star_views(stars@);
    let n = stars.len();
    let mut k: usize = 0;
    while k < n
        invariant
            0 <= k <= n,
            n == stars.len(),
            before.len() == n,
            forall|i: int|
                0 <= i < k ==> (#[trigger] stars@[i])@ == (StarView { res_factor: 0, ..before[i] }),
            forall|i: int| k <= i < n ==> (#[trigger] stars@[i])@ == before[i],
        decreases n - k,
    {
        stars[k].res_factor = 0;
        k += 1;
    }
}

/// Counts the stars at which something was found.
pub fn count_lit(stars: &Vec<Star>) -> (count: usize)
    ensures
        count == lit(star_views(stars@)).len(),
{
    let ghost all = star_views(stars@);
    let n = stars.len();
    let mut count: usize = 0;
    let mut k: usize = 0;
    proof {
        lemma_filter_none(all, |s: StarView| s.res_factor > 0);
    }
    while k < n
        invariant
            0 <= k <= n,
            n == stars.len(),
            all == star_views(stars@),
            count == lit(all.take(k as int)).len(),
            count <= k,
        decreases n - k,
    {
        proof {
            lemma_filter_next(all, |s: StarView| s.res_factor > 0, k as int);
        }
        if stars[k].res_factor > 0 {
            count += 1;
        }
        k += 1;
    }
    proof {
        lemma_take_all(all);
    }
    count
}

/// Finds at each star the richest deposit among the hits in its system, and
/// lists the hits in the order of the resources. The marks on planets and
/// resources say what is a hit.
pub(crate) fn rate_by_deposit(
    stars: &mut Vec<Star>,
    planets: &Vec<Planet>,
    resources: &Vec<Resource>,
) -> (hits: Vec<Hit>)
    ensures
        star_views(final(stars)@) == rated_by_deposit(
            star_views(old(stars)@),
            planet_views(planets@),
            resource_views(resources@),
            resources@.len() as int,
        ),
        hit_views(hits@) == hits_among(
            planet_views(planets@),
            resource_views(resources@),
            resources@.len() as int,
        ),
{
    let ghost s0 = star_views(stars@);
    let ghost p = planet_views(planets@);
    let ghost r = resource_views(resources@);
    reset_stars(stars);
    let mut hits: Vec<Hit> = Vec::new();
    let n = resources.len();
    let mut j: usize = 0;
    proof {
        assert(star_views(stars@) =~= rated_by_deposit(s0, p, r, 0));
    }
    while j < n
        invariant
            0 <= j <= n,
            n == resources.len(),
            p == planet_views(planets@),
            r == resource_views(resources@),
            stars.len() == s0.len(),
            star_views(stars@) == rated_by_deposit(s0, p, r, j as int),
            hit_views(hits@) == hits_among(p, r, j as int),
        decreases n - j,
    {
        let ghost rated = star_views(stars@);
        proof {
            assert(star_sys_ids(rated) =~= star_sys_ids(s0));
        }
        if resources[j].filtered {
            if let Some(at) = find_planet_by_nat_id(planets, resources[j].planet.as_str()) {
                if planets[at].filtered {
                    if let Some(k) = find_star_by_sys_id(stars, planets[at].sys_id.as_str()) {
                        if resources[j].factor > stars[k].res_factor {
                            stars[k].res_factor = resources[j].factor;
                        }
                    }
                    hits.push((planets[at].clone(), resources[j].clone()));
                }
            }
        }
        proof {
            let next = rated_by_deposit(s0, p, r, j + 1);
            assert forall|k: int| 0 <= k < s0.len() implies star_views(stars@)[k] == next[k] by {
                assert(rated[k].res_factor == best_factor(s0, p, r, k, j as int));
            }
        }
        j += 1;
    }
    hits
}

/// From one planet to the next, a star hosts a fitting planet if it did, or
/// if the next planet fits and is its own.
pub proof fn lemma_hosts_fitting_next(
    stars: Seq<StarView>,
    planets: Seq<PlanetView>,
    k: int,
    n: int,
)
    requires
        0 <= n < planets.len(),
    ensures
        hosts_fitting(stars, planets, k, n + 1) == (hosts_fitting(stars, planets, k, n) || (
        planets[n].filtered && first_index(star_sys_ids(stars), planets[n].sys_id) == Some(k))),
{
    if hosts_fitting(stars, planets, k, n + 1) {
        let i = choose|i: int|
            0 <= i < n + 1 && i < planets.len() && (#[trigger] planets[i]).filtered && first_index(
                star_sys_ids(stars),
                planets[i].sys_id,
            ) == Some(k);
        if i < n {
            assert(hosts_fitting(stars, planets, k, n));
        }
    }
    if hosts_fitting(stars, planets, k, n) {
        let i = choose|i: int|
            0 <= i < n && i < planets.len() && (#[trigger] planets[i]).filtered && first_index(
                star_sys_ids(stars),
                planets[i].sys_id,
            ) == Some(k);
        assert(0 <= i < n + 1 && planets[i].filtered);
    }
    if planets[n].filtered && first_index(star_sys_ids(stars), planets[n].sys_id) == Some(k) {
        assert(0 <= n < n + 1 && planets[n].filtered);
    }
}

/// Sets each star that hosts a fitting planet to one, and every other star
/// to nothing. The marks on the planets say which fit.
pub(crate) fn rate_by_planet(stars: &mut Vec<Star>, planets: &Vec<Planet>)
    ensures
        star_views(final(stars)@) == rated_by_planet(
            star_views(old(stars)@),
            planet_views(planets@),
            planets@.len() as int,
        ),
{
    let ghost s0 = star_views(stars@);
    let ghost p = planet_views(planets@);
    reset_stars(stars);
    let n = planets.len();
    let mut i: usize = 0;
    proof {
        assert(star_views(stars@) =~= rated_by_planet(s0, p, 0));
    }
    while i < n
        invariant
            0 <= i <= n,
            n == planets.len(),
            p == planet_views(planets@),
            stars.len() == s0.len(),
            star_views(stars@) == rated_by_planet(s0, p, i as int),
        decreases n - i,
    {
        let ghost rated = star_views(stars@);
        proof {
            assert(star_sys_ids(rated) =~= star_sys_ids(s0));
            assert forall|k: int| 0 <= k < s0.len() implies hosts_fitting(s0, p, k, i + 1) == (
            hosts_fitting(s0, p, k, i as int) || (p[i as int].filtered && first_index(
                star_sys_ids(s0),
                p[i as int].sys_id,
            ) == Some(k))) by {
                lemma_hosts_fitting_next(s0, p, k, i as int);
            }
        }
        if planets[i].filtered {
            if let Some(k) = find_star_by_sys_id(stars, planets[i].sys_id.as_str()) {
                stars[k].res_factor = UNIT;
            }
        }
        proof {
            let next = rated_by_planet(s0, p, i + 1);
            assert forall|k: int| 0 <= k < s0.len() implies star_views(stars@)[k] == next[k] by {
                assert(rated[k].res_factor == if hosts_fitting(s0, p, k, i as int) {
                    UNIT
                } else {
                    0
                });
            }
        }
        i += 1;
    }
}

} // verus!
