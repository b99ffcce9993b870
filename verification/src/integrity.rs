//! Whether the records of a universe hang together: every planet circles a
//! star that is on record, and every resource lies on a planet that is.

use crate::filtering::links_resolve;
use crate::lookup::{
    find_planet_by_nat_id, find_star_by_sys_id, first_index, planet_nat_ids, star_sys_ids,
};
use crate::options::Filters;
use crate::universe::{Universe, UniverseView, pass};
use vstd::prelude::*;

verus! {

/// A record that names another which is not there.
#[derive(PartialEq, Eq, Structural, Clone, Copy, Debug)]
pub enum IntegrityError {
    /// The planet at this position names a star that is not on record.
    UnknownStar { planet: usize },
    /// The resource at this position names a planet that is not on record.
    UnknownPlanet { resource: usize },
}

/// Whether the planet at position `i` names a star that is on record.
pub open spec fn planet_linked(u: UniverseView, i: int) -> bool {
    first_index(star_sys_ids(u.stars), u.planets[i].sys_id) is Some
}

/// Whether the resource at position `j` names a planet that is on record.
pub open spec fn resource_linked(u: UniverseView, j: int) -> bool {
    first_index(planet_nat_ids(u.planets), u.resources[j].planet) is Some
}

/// What a check of the links finds: the first planet without its star; if
/// there is none, the first resource without its planet; if there is none
/// either, nothing.
pub open spec fn is_finding(u: UniverseView, r: Result<(), IntegrityError>) -> bool {
    match r {
        Ok(_) => links_resolve(u.stars, u.planets, u.resources),
        Err(IntegrityError::UnknownStar { planet }) => {
            &&& planet < u.planets.len()
            &&& !planet_linked(u, planet as int)
            &&& forall|i: int| 0 <= i < planet ==> planet_linked(u, i)
        },
        Err(IntegrityError::UnknownPlanet { resource }) => {
            &&& forall|i: int| 0 <= i < u.planets.len() ==> planet_linked(u, i)
            &&& resource < u.resources.len()
            &&& !resource_linked(u, resource as int)
            &&& forall|j: int| 0 <= j < resource ==> resource_linked(u, j)
        },
    }
}

impl Universe {
    /// Checks the links between the records.
    pub fn integrity(&self) -> (r: Result<(), IntegrityError>)
        ensures
            is_finding(self@, r),
            r is Ok <==> self.links_resolve(),
    {
        let n = self.planets.len();
        let mut i: usize = 0;
        while i < n
            invariant
                0 <= i <= n,
                n == self.planets.len(),
                forall|k: int| 0 <= k < i ==> planet_linked(self@, k),
            decreases n - i,
        {
            if find_star_by_sys_id(&self.stars, self.planets[i].sys_id.as_str()).is_none() {
                return Err(IntegrityError::UnknownStar { planet: i });
            }
            i += 1;
        }
        let m = self.resources.len();
        let mut j: usize = 0;
        while j < m
            invariant
                0 <= j <= m,
                m == self.resources.len(),
                forall|k: int| 0 <= k < self@.planets.len() ==> planet_linked(self@, k),
                forall|k: int| 0 <= k < j ==> resource_linked(self@, k),
            decreases m - j,
        {
            if find_planet_by_nat_id(&self.planets, self.resources[j].planet.as_str()).is_none() {
                return Err(IntegrityError::UnknownPlanet { resource: j });
            }
            j += 1;
        }
        proof {
            assert forall|k: int| 0 <= k < self@.planets.len() implies first_index(
                star_sys_ids(self@.stars),
                (#[trigger] self@.planets[k]).sys_id,
            ) is Some by {
                assert(planet_linked(self@, k));
            }
            assert forall|k: int| 0 <= k < self@.resources.len() implies first_index(
                planet_nat_ids(self@.planets),
                (#[trigger] self@.resources[k]).planet,
            ) is Some by {
                assert(resource_linked(self@, k));
            }
        }
        Ok(())
    }
}

impl Universe {
    /// Runs a pass of the filters if the records hang together; if they do
    /// not, leaves the universe as it is and reports the first broken link.
    pub fn try_apply_filters(&mut self, filters: &Filters) -> (r: Result<(), IntegrityError>)
        ensures
            is_finding(old(self)@, r),
            r is Ok <==> old(self).links_resolve(),
            final(self)@ == if r is Ok {
                pass(old(self)@, filters@)
            } else {
                old(self)@
            },
    {
        match self.integrity() {
            Ok(_) => {
                self.apply_filters(filters);
                Ok(())
            },
            Err(e) => Err(e),
        }
    }
}

} // verus!
