//! A universe: its stars, planets and resources, with what the last pass of
//! the filters made of them.

use crate::entities::{
    Planet, PlanetView, Resource, ResourceView, Star, StarView, blank_star, planet_views,
    resource_views, star_views,
};
use crate::filtering::{
    all_fitting, count_lit, fitting, hits_among, links_resolve, lit, mark_sought, marked, rate_by_deposit,
    no_rocky_fitting, rate_by_planet, rated_by_deposit, rated_by_planet, screen_planets, screened,
    sought,
};
use crate::laws::{
    lemma_hits_descend, lemma_rocky_never_fits_gaseous, lemma_unfiltered_environment_fits_all,
};
use crate::options::{Filters, FiltersView, SurfaceOption};
use crate::ranking::{Hit, HitView, descending, hit_views, rank, ranked};
use vstd::prelude::*;

verus! {

/// What a pass of the filters found, in numbers, and the hits in rank.
#[derive(PartialEq, Eq, Debug)]
pub struct Diagnostics {
    /// How many planets fit.
    pub planets_with_env: usize,
    /// How many deposits are of the resource sought.
    pub planets_with_res: usize,
    /// At how many stars something was found.
    pub stars_with_planets_with_env_res: usize,
    /// The fitting planets that hold the resource sought, richest first.
    pub filter_hits: Vec<Hit>,
}

/// Diagnostics as plain values.
pub struct DiagnosticsView {
    pub planets_with_env: nat,
    pub planets_with_res: nat,
    pub stars_with_planets_with_env_res: nat,
    pub filter_hits: Seq<HitView>,
}

impl View for Diagnostics {
    type V = DiagnosticsView;

    open spec fn view(&self) -> DiagnosticsView {
        DiagnosticsView {
            planets_with_env: self.planets_with_env as nat,
            planets_with_res: self.planets_with_res as nat,
            stars_with_planets_with_env_res: self.stars_with_planets_with_env_res as nat,
            filter_hits: hit_views(self.filter_hits@),
        }
    }
}

/// Diagnostics of a pass that found nothing.
pub open spec fn blank_diagnostics() -> DiagnosticsView {
    DiagnosticsView {
        planets_with_env: 0,
        planets_with_res: 0,
        stars_with_planets_with_env_res: 0,
        filter_hits: Seq::empty(),
    }
}

impl Diagnostics {
    /// Diagnostics of a pass that found nothing.
    pub fn new() -> (d: Self)
        ensures
            d@ == blank_diagnostics(),
    {
        let d = Diagnostics {
            planets_with_env: 0,
            planets_with_res: 0,
            stars_with_planets_with_env_res: 0,
            filter_hits: Vec::new(),
        };
        proof {
            assert(hit_views(d.filter_hits@) =~= Seq::empty());
        }
        d
    }

    /// How many fitting planets hold the resource sought.
    pub fn planets_with_env_res(&self) -> (n: usize)
        ensures
            n == self@.filter_hits.len(),
    {
        self.filter_hits.len()
    }
}

/// The plain values of a list of texts.
pub open spec fn text_views(s: Seq<String>) -> Seq<Seq<char>> {
    s.map_values(|t: String| t@)
}

/// The plain values of a table from tickers to factors.
pub open spec fn table_view(s: Seq<(String, i64)>) -> Seq<(Seq<char>, i64)> {
    s.map_values(|e: (String, i64)| (e.0@, e.1))
}

/// The stars, planets and resources on record, and what is derived from them.
#[derive(PartialEq, Eq, Debug)]
pub struct Universe {
    pub stars: Vec<Star>,
    /// The star that the user picked; a star without identity if none.
    pub selected_star: Star,
    pub planets: Vec<Planet>,
    pub resources: Vec<Resource>,
    /// The names by which a star can be searched.
    pub star_list: Vec<String>,
    /// The resources that can be sought.
    pub res_list: Vec<String>,
    /// For each ticker the richest deposit on record, in the order of the
    /// tickers.
    pub res_max_factor: Vec<(String, i64)>,
    pub diagnostics: Diagnostics,
}

/// A universe as plain values.
pub struct UniverseView {
    pub stars: Seq<StarView>,
    pub selected_star: StarView,
    pub planets: Seq<PlanetView>,
    pub resources: Seq<ResourceView>,
    pub star_list: Seq<Seq<char>>,
    pub res_list: Seq<Seq<char>>,
    pub res_max_factor: Seq<(Seq<char>, i64)>,
    pub diagnostics: DiagnosticsView,
}

impl View for Universe {
    type V = UniverseView;

    open spec fn view(&self) -> UniverseView {
        UniverseView {
            stars: star_views(self.stars@),
            selected_star: self.selected_star@,
            planets: planet_views(self.planets@),
            resources: resource_views(self.resources@),
            star_list: text_views(self.star_list@),
            res_list: text_views(self.res_list@),
            res_max_factor: table_view(self.res_max_factor@),
            diagnostics: self.diagnostics@,
        }
    }
}

/// The universe after a pass of the filters. Each planet is marked by
/// whether its environment fits, each resource by whether it is of the kind
/// sought. Where a resource is sought, a star gets the richest deposit of it
/// on a fitting planet of its system, and the hits are listed in rank; where
/// none is sought, a star gets one if it hosts a fitting planet. The
/// diagnostics count what was marked. Nothing else changes.
pub open spec fn pass(u: UniverseView, f: FiltersView) -> UniverseView {
    let planets = screened(u.planets, f);
    let resources = sought(u.resources, f.selected_resource_ticker);
    let stars = match f.selected_resource_ticker {
        Some(_) => rated_by_deposit(u.stars, planets, resources, resources.len() as int),
        None => rated_by_planet(u.stars, planets, planets.len() as int),
    };
    let hits = match f.selected_resource_ticker {
        Some(_) => ranked(hits_among(planets, resources, resources.len() as int)),
        None => Seq::empty(),
    };
    UniverseView {
        stars,
        planets,
        resources,
        diagnostics: DiagnosticsView {
            planets_with_env: fitting(planets).len(),
            planets_with_res: marked(resources).len(),
            stars_with_planets_with_env_res: lit(stars).len(),
            filter_hits: hits,
        },
        ..u
    }
}

/// A universe with nothing on record.
pub open spec fn blank_universe() -> UniverseView {
    UniverseView {
        stars: Seq::empty(),
        selected_star: blank_star(),
        planets: Seq::empty(),
        resources: Seq::empty(),
        star_list: Seq::empty(),
        res_list: Seq::empty(),
        res_max_factor: Seq::empty(),
        diagnostics: blank_diagnostics(),
    }
}

impl Universe {
    /// A universe with nothing on record.
    pub fn new() -> (u: Self)
        ensures
            u@ == blank_universe(),
    {
        let u = Universe {
            stars: Vec::new(),
            selected_star: Star::new(),
            planets: Vec::new(),
            resources: Vec::new(),
            star_list: Vec::new(),
            res_list: Vec::new(),
            res_max_factor: Vec::new(),
            diagnostics: Diagnostics::new(),
        };
        proof {
            assert(u@.stars =~= Seq::empty());
            assert(u@.planets =~= Seq::empty());
            assert(u@.resources =~= Seq::empty());
            assert(u@.star_list =~= Seq::empty());
            assert(u@.res_max_factor =~= Seq::empty());
        }
        u
    }

    /// Whether every planet names a star that is on record, and every
    /// resource a planet that is.
    pub open spec fn links_resolve(&self) -> bool {
        links_resolve(self@.stars, self@.planets, self@.resources)
    }

    /// Runs a pass of the filters: marks planets and resources, rates the
    /// stars and renews the diagnostics.
    pub fn apply_filters(&mut self, filters: &Filters)
        requires
            old(self).links_resolve(),
        ensures
            final(self)@ == pass(old(self)@, filters@),
            !filters.env_filter ==> all_fitting(final(self)@.planets),
            filters.env_filter && filters.surface == SurfaceOption::Gaseous ==> no_rocky_fitting(
                final(self)@.planets,
            ),
            descending(final(self)@.diagnostics.filter_hits),
            final(self)@.diagnostics.stars_with_planets_with_env_res == lit(
                final(self)@.stars,
            ).len(),
    {
        proof {
            lemma_hits_descend(old(self)@, filters@);
            if !filters.env_filter {
                lemma_unfiltered_environment_fits_all(old(self)@, filters@);
            }
            if filters.env_filter && filters.surface == SurfaceOption::Gaseous {
                lemma_rocky_never_fits_gaseous(old(self)@, filters@);
            }
        }
        let with_env = screen_planets(&mut self.planets, filters);
        let with_res = mark_sought(&mut self.resources, &filters.selected_resource_ticker);
        let hits = match &filters.selected_resource_ticker {
            Some(_) => rank(rate_by_deposit(&mut self.stars, &self.planets, &self.resources)),
            None => {
                rate_by_planet(&mut self.stars, &self.planets);
                Vec::new()
            },
        };
        proof {
            assert(hit_views(hits@) =~= pass(old(self)@, filters@).diagnostics.filter_hits);
        }
        self.diagnostics = Diagnostics {
            planets_with_env: with_env,
            planets_with_res: with_res,
            stars_with_planets_with_env_res: self.stars_with_planets_env_res(),
            filter_hits: hits,
        };
    }

    /// At how many stars the last pass found something.
    pub fn stars_with_planets_env_res(&self) -> (n: usize)
        ensures
            n == lit(self@.stars).len(),
    {
        count_lit(&self.stars)
    }
}

/// A coordinate with its sign turned; the lowest number there is, which
/// has no counterpart above zero, becomes the highest.
pub open spec fn mirrored(y: i64) -> i64 {
    if y == i64::MIN {
        i64::MAX
    } else {
        (-y) as i64
    }
}

/// The stars with the sign of each `y` turned.
pub open spec fn turned(stars: Seq<StarView>) -> Seq<StarView> {
    stars.map_values(|s: StarView| StarView { y: mirrored(s.y), ..s })
}

impl Universe {
    /// Turns the map upside down: the sign of each star's `y` is turned.
    pub fn fix_star_y(&mut self)
        ensures
            final(self)@ == (UniverseView { stars: turned(old(self)@.stars), ..old(self)@ }),
    {
        let ghost before = star_views(self.stars@);
        let n = self.stars.len();
        let mut k: usize = 0;
        while k < n
            invariant
                0 <= k <= n,
                n == self.stars.len(),
                before.len() == n,
                forall|i: int|
                    0 <= i < k ==> (#[trigger] self.stars@[i])@ == (StarView {
                        y: mirrored(before[i].y),
                        ..before[i]
                    }),
                forall|i: int| k <= i < n ==> (#[trigger] self.stars@[i])@ == before[i],
                *self == (Universe { stars: self.stars, ..*old(self) }),
            decreases n - k,
        {
            let y = self.stars[k].y;
            self.stars[k].y = if y == i64::MIN {
                i64::MAX
            } else {
                -y
            };
            k += 1;
        }
        proof {
            assert(star_views(self.stars@) =~= turned(before));
        }
    }
}

impl Clone for Diagnostics {
    fn clone(&self) -> (d: Self)
        ensures
            d@ == self@,
    {
        let filter_hits = self.top_hits(self.filter_hits.len());
        Diagnostics {
            planets_with_env: self.planets_with_env,
            planets_with_res: self.planets_with_res,
            stars_with_planets_with_env_res: self.stars_with_planets_with_env_res,
            filter_hits,
        }
    }
}

/// A copy of a table from tickers to factors.
fn copy_table(table: &Vec<(String, i64)>) -> (copy: Vec<(String, i64)>)
    ensures
        table_view(copy@) == table_view(table@),
{
    let mut copy: Vec<(String, i64)> = Vec::new();
    let n = table.len();
    let mut i: usize = 0;
    while i < n
        invariant
            0 <= i <= n,
            n == table.len(),
            copy.len() == i,
            forall|j: int| 0 <= j < i ==> (#[trigger] copy@[j]).0@ == table@[j].0@ && copy@[j].1
                == table@[j].1,
        decreases n - i,
    {
        copy.push((table[i].0.clone(), table[i].1));
        i += 1;
    }
    copy
}

impl Clone for Universe {
    fn clone(&self) -> (u: Self)
        ensures
            u@ == self@,
    {
        let stars = self.stars.clone();
        let planets = self.planets.clone();
        let resources = self.resources.clone();
        let star_list = self.star_list.clone();
        let res_list = self.res_list.clone();
        let res_max_factor = copy_table(&self.res_max_factor);
        proof {
            assert(star_views(stars@) =~= star_views(self.stars@));
            assert(planet_views(planets@) =~= planet_views(self.planets@));
            assert(resource_views(resources@) =~= resource_views(self.resources@));
        }
        Universe {
            stars,
            selected_star: self.selected_star.clone(),
            planets,
            resources,
            star_list,
            res_list,
            res_max_factor,
            diagnostics: self.diagnostics.clone(),
        }
    }
}

impl Default for Universe {
    fn default() -> (u: Self)
        ensures
            u@ == blank_universe(),
    {
        Universe::new()
    }
}

} // verus!
