//! Reading a universe: the planets of a star, the resources of a planet, the
//! foremost hits.

use crate::entities::{
    Planet, PlanetView, Resource, ResourceView, planet_views, resource_views,
};
use crate::ranking::{Hit, hit_views};
use crate::seqs::{lemma_filter_next, lemma_filter_none, lemma_take_all};
use crate::text::same_text;
use crate::universe::{Diagnostics, Universe};
use vstd::prelude::*;

verus! {

/// The planets of the star with the given identity, in their order.
pub open spec fn planets_of(planets: Seq<PlanetView>, sys_id: Seq<char>) -> Seq<PlanetView> {
    planets.filter(|p: PlanetView| p.sys_id == sys_id)
}

/// The resources on the planet with the given catalog designation, in their
/// order.
pub open spec fn resources_on(resources: Seq<ResourceView>, nat_id: Seq<char>) -> Seq<
    ResourceView,
> {
    resources.filter(|r: ResourceView| r.planet == nat_id)
}

/// The first `limit` entries of a list, or all of it if it has fewer.
pub open spec fn foremost<T>(s: Seq<T>, limit: int) -> Seq<T> {
    if limit < s.len() {
        s.take(limit)
    } else {
        s
    }
}

impl Universe {
    /// The planets of the star with the given identity.
    pub fn planets_for_star(&self, sys_id: &str) -> (found: Vec<Planet>)
        ensures
            planet_views(found@) == planets_of(self@.planets, sys_id@),
    {
        let ghost all = planet_views(self.planets@);
        let ghost wanted = |p: PlanetView| p.sys_id == sys_id@;
        let mut found: Vec<Planet> = Vec::new();
        let n = self.planets.len();
        let mut i: usize = 0;
        proof {
            lemma_filter_none(all, wanted);
        }
        while i < n
            invariant
                0 <= i <= n,
                n == self.planets.len(),
                all == planet_views(self.planets@),
                wanted == (|p: PlanetView| p.sys_id == sys_id@),
                planet_views(found@) == all.take(i as int).filter(wanted),
            decreases n - i,
        {
            proof {
                lemma_filter_next(all, wanted, i as int);
            }
            if same_text(self.planets[i].sys_id.as_str(), sys_id) {
                found.push(self.planets[i].clone());
            }
            i += 1;
        }
        proof {
            lemma_take_all(all);
        }
        found
    }

    /// The planets of the star that the user picked.
    pub fn planets_for_selected_star(&self) -> (found: Vec<Planet>)
        ensures
            planet_views(found@) == planets_of(self@.planets, self@.selected_star.sys_id),
    {
        self.planets_for_star(self.selected_star.sys_id.as_str())
    }

    /// The resources on a planet.
    pub fn resources_for_planet(&self, p: &Planet) -> (found: Vec<Resource>)
        ensures
            resource_views(found@) == resources_on(self@.resources, p@.nat_id),
    {
        let ghost all = resource_views(self.resources@);
        let ghost wanted = |r: ResourceView| r.planet == p@.nat_id;
        let mut found: Vec<Resource> = Vec::new();
        let n = self.resources.len();
        let mut i: usize = 0;
        proof {
            lemma_filter_none(all, wanted);
        }
        while i < n
            invariant
                0 <= i <= n,
                n == self.resources.len(),
                all == resource_views(self.resources@),
                wanted == (|r: ResourceView| r.planet == p@.nat_id),
                resource_views(found@) == all.take(i as int).filter(wanted),
            decreases n - i,
        {
            proof {
                lemma_filter_next(all, wanted, i as int);
            }
            if self.resources[i].planet == p.nat_id {
                found.push(self.resources[i].clone());
            }
            i += 1;
        }
        proof {
            lemma_take_all(all);
        }
        found
    }
}

impl Diagnostics {
    /// The foremost hits of the ranked list: the first `limit`, or all if
    /// there are fewer.
    pub fn top_hits(&self, limit: usize) -> (top: Vec<Hit>)
        ensures
            hit_views(top@) == foremost(self@.filter_hits, limit as int),
    {
        let ghost all = hit_views(self.filter_hits@);
        let n = if limit < self.filter_hits.len() {
            limit
        } else {
            self.filter_hits.len()
        };
        let mut top: Vec<Hit> = Vec::new();
        let mut i: usize = 0;
        while i < n
            invariant
                0 <= i <= n <= self.filter_hits.len(),
                all == hit_views(self.filter_hits@),
                hit_views(top@) == all.take(i as int),
            decreases n - i,
        {
            let ghost so_far = hit_views(top@);
            top.push((self.filter_hits[i].0.clone(), self.filter_hits[i].1.clone()));
            proof {
                assert(hit_views(top@) =~= so_far.push(all[i as int]));
            }
            i += 1;
        }
        proof {
            lemma_take_all(all);
        }
        top
    }
}

} // verus!
