//! Finding the star that a search term names.
//!
//! A term whose third character is a dash is read as a catalog designation:
//! its first six characters are looked up among the designations of the
//! stars. Any other term is read as a name, letter case set aside: of a
//! planet first, which leads to the star it circles, and only if no planet
//! has the name, of a star. Catalog designations are taken to be two
//! characters, a dash and three more; a name whose third character is a dash
//! is therefore never found as a name.

use crate::entities::{PlanetView, Star, StarView, star_view_of};
use crate::lookup::{
    find_planet_by_name, find_star_by_name, find_star_by_nat_id, find_star_by_sys_id, first_index,
    planet_names, star_names, star_nat_ids, star_sys_ids,
};
use crate::text::folded;
use crate::universe::Universe;
use vstd::prelude::*;

verus! {

/// The number of characters in a catalog designation.
pub const DESIGNATION_LEN: usize = 6;

/// Whether a term is read as a catalog designation.
pub open spec fn reads_as_designation(term: Seq<char>) -> bool {
    term.len() > 2 && term[2] == '-'
}

/// The first characters of a term, as many as a catalog designation has, or
/// all of the term if it is shorter.
pub open spec fn designation_of(term: Seq<char>) -> Seq<char> {
    if term.len() < DESIGNATION_LEN {
        term
    } else {
        term.take(DESIGNATION_LEN as int)
    }
}

/// The position of the star that a term names, if it names one.
pub open spec fn resolved(stars: Seq<StarView>, planets: Seq<PlanetView>, term: Seq<char>)
    -> Option<int> {
    if reads_as_designation(term) {
        first_index(star_nat_ids(stars), designation_of(term))
    } else {
        match first_index(planet_names(planets), folded(term)) {
            Some(i) => first_index(star_sys_ids(stars), planets[i].sys_id),
            None => first_index(star_names(stars), folded(term)),
        }
    }
}

impl Universe {
    /// The position of the star that a search term names.
    pub fn star_index_from_name(&self, name: &str) -> (r: Option<usize>)
        ensures
            crate::lookup::as_index(r) == resolved(self@.stars, self@.planets, name@),
            r matches Some(k) ==> k < self.stars.len(),
    {
        let len = name.unicode_len();
        if len > 2 && name.get_char(2) == '-' {
            let designation = if len < DESIGNATION_LEN {
                name
            } else {
                name.substring_char(0, DESIGNATION_LEN)
            };
            find_star_by_nat_id(&self.stars, designation)
        } else {
            match find_planet_by_name(&self.planets, name) {
                Some(i) => {
                    find_star_by_sys_id(&self.stars, self.planets[i].sys_id.as_str())
                },
                None => find_star_by_name(&self.stars, name),
            }
        }
    }

    /// The star that a search term names, or none if it names no star on
    /// record.
    pub fn star_from_name(&self, name: String) -> (r: Option<Star>)
        ensures
            star_view_of(r) == match resolved(self@.stars, self@.planets, name@) {
                Some(k) => Some(self@.stars[k]),
                None => None,
            },
    {
        match self.star_index_from_name(name.as_str()) {
            Some(k) => {
                Some(self.stars[k].clone())
            },
            None => None,
        }
    }
}

} // verus!
