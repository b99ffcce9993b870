//! What holds of every pass of the filters.

use crate::entities::{PlanetView, ResourceView, StarView};
use crate::filtering::{
    all_fitting, best_factor, hit_at, hit_of, hits_among, lit, no_rocky_fitting, rated_by_deposit,
    rated_by_planet, screened, sought,
};
use crate::lookup::star_sys_ids;
use crate::options::{FiltersView, SurfaceOption};
use crate::ranking::{descending, lemma_ranked_descending};
use crate::universe::{UniverseView, pass};
use vstd::prelude::*;

verus! {

/// With the environment not filtered, a pass marks every planet as fitting.
pub proof fn lemma_unfiltered_environment_fits_all(u: UniverseView, f: FiltersView)
    requires
        !f.env_filter,
    ensures
        all_fitting(pass(u, f).planets),
{
}

/// With the environment filtered for gaseous planets, a pass marks no rocky
/// planet as fitting, whatever its gravity, temperature and pressure are and
/// whatever bands are asked for.
pub proof fn lemma_rocky_never_fits_gaseous(u: UniverseView, f: FiltersView)
    requires
        f.env_filter,
        f.surface == SurfaceOption::Gaseous,
    ensures
        no_rocky_fitting(pass(u, f).planets),
{
}

/// A pass lists its hits from the richest deposit to the poorest.
pub proof fn lemma_hits_descend(u: UniverseView, f: FiltersView)
    ensures
        descending(pass(u, f).diagnostics.filter_hits),
{
    let after = pass(u, f);
    if f.selected_resource_ticker is Some {
        lemma_ranked_descending(
            hits_among(after.planets, after.resources, after.resources.len() as int),
        );
    }
}

/// After a pass, the diagnostics count exactly the stars at which something
/// was found.
pub proof fn lemma_star_count_agrees(u: UniverseView, f: FiltersView)
    ensures
        pass(u, f).diagnostics.stars_with_planets_with_env_res == lit(pass(u, f).stars).len(),
{
}

/// Whether resource `j` gives a hit in the system of star `k`.
pub open spec fn feeds(
    stars: Seq<StarView>,
    planets: Seq<PlanetView>,
    resources: Seq<ResourceView>,
    j: int,
    k: int,
) -> bool {
    hit_of(planets, resources[j]) matches Some(h) && hit_at(stars, h, k)
}

/// What a pass finds at a star, where a resource is sought, is the greatest
/// factor among the hits in its system: it is no less than any of them, and
/// it is one of them, or zero where none is above zero.
pub proof fn lemma_best_factor_is_greatest(
    stars: Seq<StarView>,
    planets: Seq<PlanetView>,
    resources: Seq<ResourceView>,
    k: int,
    n: int,
)
    requires
        0 <= n <= resources.len(),
    ensures
        best_factor(stars, planets, resources, k, n) >= 0,
        forall|j: int|
            0 <= j < n && #[trigger] feeds(stars, planets, resources, j, k)
                ==> resources[j].factor <= best_factor(stars, planets, resources, k, n),
        best_factor(stars, planets, resources, k, n) == 0 || exists|j: int|
            0 <= j < n && #[trigger] feeds(stars, planets, resources, j, k) && resources[j].factor
                == best_factor(stars, planets, resources, k, n),
    decreases n,
{
    if n > 0 {
        lemma_best_factor_is_greatest(stars, planets, resources, k, n - 1);
        let before = best_factor(stars, planets, resources, k, n - 1);
        let now = best_factor(stars, planets, resources, k, n);
        if now != 0 {
            if now == before {
                let j = choose|j: int|
                    0 <= j < n - 1 && #[trigger] feeds(stars, planets, resources, j, k)
                        && resources[j].factor == before;
            } else {
                assert(feeds(stars, planets, resources, n - 1, k));
            }
        }
    }
}

/// What a pass finds at a star depends on the stars only through their
/// identities.
pub proof fn lemma_best_factor_by_identity(
    a: Seq<StarView>,
    b: Seq<StarView>,
    planets: Seq<PlanetView>,
    resources: Seq<ResourceView>,
    k: int,
    n: int,
)
    requires
        star_sys_ids(a) == star_sys_ids(b),
    ensures
        best_factor(a, planets, resources, k, n) == best_factor(b, planets, resources, k, n),
    decreases n,
{
    if n > 0 {
        lemma_best_factor_by_identity(a, b, planets, resources, k, n - 1);
    }
}

/// A second pass with the same filters changes nothing: planets, resources,
/// stars and diagnostics are as the first pass left them.
pub proof fn lemma_pass_is_idempotent(u: UniverseView, f: FiltersView)
    ensures
        pass(pass(u, f), f) == pass(u, f),
{
    let once = pass(u, f);
    let twice = pass(once, f);
    assert(screened(once.planets, f) =~= once.planets);
    assert(sought(once.resources, f.selected_resource_ticker) =~= once.resources);
    assert(star_sys_ids(once.stars) =~= star_sys_ids(u.stars));
    match f.selected_resource_ticker {
        Some(_) => {
            let n = once.resources.len() as int;
            assert forall|k: int| 0 <= k < u.stars.len() implies rated_by_deposit(
                once.stars,
                once.planets,
                once.resources,
                n,
            )[k] == once.stars[k] by {
                lemma_best_factor_by_identity(
                    once.stars,
                    u.stars,
                    once.planets,
                    once.resources,
                    k,
                    n,
                );
            }
            assert(rated_by_deposit(once.stars, once.planets, once.resources, n) =~= once.stars);
        },
        None => {
            let n = once.planets.len() as int;
            assert(rated_by_planet(once.stars, once.planets, n) =~= once.stars);
        },
    }
}

} // verus!
