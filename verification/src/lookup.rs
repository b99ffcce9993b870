//! Finding a record by a key. Where several records carry the key, the one
//! that stands first is the one found.

use crate::entities::{Planet, PlanetView, Star, StarView, planet_views, star_views};
use crate::text::{folded, same_ignoring_case, same_text};
use vstd::prelude::*;

verus! {

/// Whether `k` is the first position at which `keys` holds `key`.
pub open spec fn is_first_index(keys: Seq<Seq<char>>, key: Seq<char>, k: int) -> bool {
    &&& 0 <= k < keys.len()
    &&& keys[k] == key
    &&& forall|j: int| 0 <= j < k ==> keys[j] != key
}

/// The first position at which `keys` holds `key`, if it holds it at all.
pub open spec fn first_index(keys: Seq<Seq<char>>, key: Seq<char>) -> Option<int> {
    if exists|k: int| is_first_index(keys, key, k) {
        Some(choose|k: int| is_first_index(keys, key, k))
    } else {
        None
    }
}

/// A position that holds the key, with none before it that does, is the one
/// that `first_index` gives.
pub proof fn lemma_first_index_found(keys: Seq<Seq<char>>, key: Seq<char>, k: int)
    requires
        is_first_index(keys, key, k),
    ensures
        first_index(keys, key) == Some(k),
{
    let c = choose|c: int| is_first_index(keys, key, c);
    assert(is_first_index(keys, key, c));
    if c < k {
        assert(keys[c] != key);
    } else if k < c {
        assert(keys[k] != key);
    }
}

/// Where no position holds the key, `first_index` gives none.
pub proof fn lemma_first_index_absent(keys: Seq<Seq<char>>, key: Seq<char>)
    requires
        forall|j: int| 0 <= j < keys.len() ==> keys[j] != key,
    ensures
        first_index(keys, key) is None,
{
}

/// What `first_index` gives is a position of the key, and the first.
pub proof fn lemma_first_index_holds(keys: Seq<Seq<char>>, key: Seq<char>)
    ensures
        match first_index(keys, key) {
            Some(k) => is_first_index(keys, key, k),
            None => forall|j: int| 0 <= j < keys.len() ==> keys[j] != key,
        },
{
    if first_index(keys, key) is None {
        assert forall|j: int| 0 <= j < keys.len() implies keys[j] != key by {
            if keys[j] == key {
                lemma_some_first_index(keys, key, j);
            }
        }
    }
}

/// A key that stands somewhere in the first `n + 1` places has a first place.
proof fn lemma_some_first_index(keys: Seq<Seq<char>>, key: Seq<char>, n: int)
    requires
        0 <= n < keys.len(),
        keys[n] == key,
    ensures
        exists|k: int| is_first_index(keys, key, k),
    decreases n,
{
    if exists|j: int| 0 <= j < n && keys[j] == key {
        let j = choose|j: int| 0 <= j < n && keys[j] == key;
        lemma_some_first_index(keys, key, j);
    } else {
        assert(is_first_index(keys, key, n));
    }
}

/// Whether no key stands twice in a list.
pub open spec fn distinct(keys: Seq<Seq<char>>) -> bool {
    forall|i: int, j: int| 0 <= i < j < keys.len() ==> keys[i] != keys[j]
}

/// Where no key stands twice, each key is found at its own position.
pub proof fn lemma_distinct_found_in_place(keys: Seq<Seq<char>>, k: int)
    requires
        distinct(keys),
        0 <= k < keys.len(),
    ensures
        first_index(keys, keys[k]) == Some(k),
{
    lemma_first_index_found(keys, keys[k], k);
}

/// A position as a number of the model.
pub open spec fn as_index(r: Option<usize>) -> Option<int> {
    match r {
        Some(i) => Some(i as int),
        None => None,
    }
}

/// The identities of a list of stars.
pub open spec fn star_sys_ids(stars: Seq<StarView>) -> Seq<Seq<char>> {
    stars.map_values(|s: StarView| s.sys_id)
}

/// The catalog designations of a list of stars.
pub open spec fn star_nat_ids(stars: Seq<StarView>) -> Seq<Seq<char>> {
    stars.map_values(|s: StarView| s.nat_id)
}

/// The names of a list of stars, letter case set aside.
pub open spec fn star_names(stars: Seq<StarView>) -> Seq<Seq<char>> {
    stars.map_values(|s: StarView| folded(s.name))
}

/// The catalog designations of a list of planets.
pub open spec fn planet_nat_ids(planets: Seq<PlanetView>) -> Seq<Seq<char>> {
    planets.map_values(|p: PlanetView| p.nat_id)
}

/// The names of a list of planets, letter case set aside.
pub open spec fn planet_names(planets: Seq<PlanetView>) -> Seq<Seq<char>> {
    planets.map_values(|p: PlanetView| folded(p.name))
}

/// The first star with the given identity.
pub fn find_star_by_sys_id(stars: &Vec<Star>, sys_id: &str) -> (r: Option<usize>)
    ensures
        as_index(r) == first_index(star_sys_ids(star_views(stars@)), sys_id@),
        r matches Some(i) ==> i < stars.len(),
{
    let ghost keys = star_sys_ids(star_views(stars@));
    let mut i: usize = 0;
    while i < stars.len()
        invariant
            0 <= i <= stars.len(),
            keys == star_sys_ids(star_views(stars@)),
            forall|j: int| 0 <= j < i ==> keys[j] != sys_id@,
        decreases stars.len() - i,
    {
        if same_text(stars[i].sys_id.as_str(), sys_id) {
            proof {
                lemma_first_index_found(keys, sys_id@, i as int);
            }
            return Some(i);
        }
        i += 1;
    }
    proof {
        lemma_first_index_absent(keys, sys_id@);
    }
    None
}

/// The first star with the given catalog designation.
pub fn find_star_by_nat_id(stars: &Vec<Star>, nat_id: &str) -> (r: Option<usize>)
    ensures
        as_index(r) == first_index(star_nat_ids(star_views(stars@)), nat_id@),
        r matches Some(i) ==> i < stars.len(),
{
    let ghost keys = star_nat_ids(star_views(stars@));
    let mut i: usize = 0;
    while i < stars.len()
        invariant
            0 <= i <= stars.len(),
            keys == star_nat_ids(star_views(stars@)),
            forall|j: int| 0 <= j < i ==> keys[j] != nat_id@,
        decreases stars.len() - i,
    {
        if same_text(stars[i].nat_id.as_str(), nat_id) {
            proof {
                lemma_first_index_found(keys, nat_id@, i as int);
            }
            return Some(i);
        }
        i += 1;
    }
    proof {
        lemma_first_index_absent(keys, nat_id@);
    }
    None
}

/// The first star whose name is the given one, letter case set aside.
pub fn find_star_by_name(stars: &Vec<Star>, name: &str) -> (r: Option<usize>)
    ensures
        as_index(r) == first_index(star_names(star_views(stars@)), folded(name@)),
        r matches Some(i) ==> i < stars.len(),
{
    let ghost keys = star_names(star_views(stars@));
    let mut i: usize = 0;
    while i < stars.len()
        invariant
            0 <= i <= stars.len(),
            keys == star_names(star_views(stars@)),
            forall|j: int| 0 <= j < i ==> keys[j] != folded(name@),
        decreases stars.len() - i,
    {
        if same_ignoring_case(stars[i].name.as_str(), name) {
            proof {
                lemma_first_index_found(keys, folded(name@), i as int);
            }
            return Some(i);
        }
        i += 1;
    }
    proof {
        lemma_first_index_absent(keys, folded(name@));
    }
    None
}

/// The first planet with the given catalog designation.
pub fn find_planet_by_nat_id(planets: &Vec<Planet>, nat_id: &str) -> (r: Option<usize>)
    ensures
        as_index(r) == first_index(planet_nat_ids(planet_views(planets@)), nat_id@),
        r matches Some(i) ==> i < planets.len(),
{
    let ghost keys = planet_nat_ids(planet_views(planets@));
    let mut i: usize = 0;
    while i < planets.len()
        invariant
            0 <= i <= planets.len(),
            keys == planet_nat_ids(planet_views(planets@)),
            forall|j: int| 0 <= j < i ==> keys[j] != nat_id@,
        decreases planets.len() - i,
    {
        if same_text(planets[i].nat_id.as_str(), nat_id) {
            proof {
                lemma_first_index_found(keys, nat_id@, i as int);
            }
            return Some(i);
        }
        i += 1;
    }
    proof {
        lemma_first_index_absent(keys, nat_id@);
    }
    None
}

/// The first planet whose name is the given one, letter case set aside.
pub fn find_planet_by_name(planets: &Vec<Planet>, name: &str) -> (r: Option<usize>)
    ensures
        as_index(r) == first_index(planet_names(planet_views(planets@)), folded(name@)),
        r matches Some(i) ==> i < planets.len(),
{
    let ghost keys = planet_names(planet_views(planets@));
    let mut i: usize = 0;
    while i < planets.len()
        invariant
            0 <= i <= planets.len(),
            keys == planet_names(planet_views(planets@)),
            forall|j: int| 0 <= j < i ==> keys[j] != folded(name@),
        decreases planets.len() - i,
    {
        if same_ignoring_case(planets[i].name.as_str(), name) {
            proof {
                lemma_first_index_found(keys, folded(name@), i as int);
            }
            return Some(i);
        }
        i += 1;
    }
    proof {
        lemma_first_index_absent(keys, folded(name@));
    }
    None
}

} // verus!
