//! A session with a universe, as a machine: each message takes the state to
//! the next and says what is to be done outside. Records come in from
//! outside in three loads that may end in any order; each load that ends
//! draws up what depends on it. Each change of the filters runs one whole
//! pass, or none.

use crate::entities::{Planet, Resource, Star, StarView, planet_views, resource_views, star_views};
use crate::catalog::{no_resource, search_names, table_of, tickers};
use crate::integrity::{IntegrityError, is_finding};
use crate::map::{MapFeatures, MapFeaturesView};
use crate::options::{
    Environment, EnvironmentOption, Filters, FiltersView, SurfaceOption, Toggle, ticker_view,
};
use crate::resolve::resolved;
use crate::universe::{Universe, UniverseView, pass, turned};
use vstd::prelude::*;

verus! {

/// What a session knows.
#[derive(PartialEq, Eq, Debug)]
pub struct Session {
    /// Whether a load is under way.
    pub is_loading: bool,
    pub universe: Universe,
    pub map_features: MapFeatures,
    pub filters: Filters,
}

/// A session as plain values.
pub struct SessionView {
    pub is_loading: bool,
    pub universe: UniverseView,
    pub map_features: MapFeaturesView,
    pub filters: FiltersView,
}

impl View for Session {
    type V = SessionView;

    open spec fn view(&self) -> SessionView {
        SessionView {
            is_loading: self.is_loading,
            universe: self.universe@,
            map_features: self.map_features@,
            filters: self.filters@,
        }
    }
}

/// What can happen to a session.
#[derive(PartialEq, Eq, Debug)]
pub enum Msg {
    /// The stars are to be loaded.
    MakeStarReq,
    /// The planets are to be loaded.
    MakePlanetReq,
    /// The resources are to be loaded.
    MakeResourceReq,
    /// The load of the stars has ended: with the stars, or without.
    RespStar(Option<Vec<Star>>),
    /// The load of the planets has ended.
    RespPlanet(Option<Vec<Planet>>),
    /// The load of the resources has ended.
    RespResource(Option<Vec<Resource>>),
    /// The user picked a star.
    SelectedStar(Star),
    /// The user chose a zoom factor.
    SetScale(i64),
    /// The user searched for a name.
    SearchStar(String),
    /// The user flipped a switch.
    Toggle(Toggle, bool),
    /// The user chose a kind of surface.
    Surface(SurfaceOption),
    /// The user chose a band for a property of the environment.
    Environment(Environment, EnvironmentOption),
    /// The user chose a resource to seek, or none.
    SelectedRes(Option<String>),
    /// Nothing happened.
    TestMe,
}

/// The records that can be loaded.
#[derive(PartialEq, Eq, Structural, Clone, Copy, Debug)]
pub enum Load {
    Stars,
    Planets,
    Resources,
}

/// What is to be done outside after a message.
#[derive(PartialEq, Eq, Debug)]
pub enum Effect {
    Nothing,
    /// A load is to be started.
    Fetch(Load),
    /// The star is to be sent back as the one picked.
    Select(Star),
    /// The records do not hang together: no pass was run.
    Fault(IntegrityError),
}

/// What a message led to.
#[derive(PartialEq, Eq, Debug)]
pub struct Outcome {
    /// Whether what is shown has to be drawn again.
    pub render: bool,
    pub effect: Effect,
}

/// Whether a change of the filters to `f` takes a session from `before` to
/// `after` with `out`: where the records hang together, a pass is run and
/// all is drawn again; where they do not, the universe stays as it was and
/// the first broken link is reported.
pub open spec fn is_filter_step(
    before: SessionView,
    f: FiltersView,
    after: SessionView,
    out: Outcome,
) -> bool {
    &&& out.render
    &&& if crate::filtering::links_resolve(
        before.universe.stars,
        before.universe.planets,
        before.universe.resources,
    ) {
        &&& after == (SessionView { filters: f, universe: pass(before.universe, f), ..before })
        &&& out.effect is Nothing
    } else {
        &&& after == (SessionView { filters: f, ..before })
        &&& out.effect matches Effect::Fault(e)
        &&& is_finding(before.universe, Err(e))
    }
}

/// The universe after the stars have come in: they are kept with the sign
/// of `y` turned, and the list of search names is drawn up anew.
pub open spec fn with_stars(u: UniverseView, stars: Seq<StarView>) -> UniverseView {
    UniverseView { stars: turned(stars), star_list: search_names(turned(stars), u.planets), ..u }
}

/// The universe after the planets have come in: the list of search names
/// is drawn up anew.
pub open spec fn with_planets(u: UniverseView, planets: Seq<crate::entities::PlanetView>)
    -> UniverseView {
    UniverseView { planets, star_list: search_names(u.stars, planets), ..u }
}

/// The universe after the resources have come in: the table of the richest
/// deposits and the list of what can be sought are drawn up anew.
pub open spec fn with_resources(u: UniverseView, resources: Seq<crate::entities::ResourceView>)
    -> UniverseView {
    UniverseView {
        resources,
        res_max_factor: table_of(resources, resources.len() as int),
        res_list: seq![no_resource()] + tickers(table_of(resources, resources.len() as int)),
        ..u
    }
}

/// Whether a session stays as it is, and is drawn again.
pub open spec fn is_idle_step(before: SessionView, after: SessionView, out: Outcome) -> bool {
    &&& after == before
    &&& out.render
    &&& out.effect is Nothing
}

/// Whether a request for a load takes a session from `before` to `after`
/// with `out`: the session is loading, and the load is to be started.
pub open spec fn is_request_step(before: SessionView, load: Load, after: SessionView, out: Outcome)
    -> bool {
    &&& after == (SessionView { is_loading: true, ..before })
    &&& !out.render
    &&& out.effect == Effect::Fetch(load)
}

/// Whether the end of a load takes a session from `before` to `after` with
/// `out`, where `loaded` is the universe with what came in.
pub open spec fn is_loaded_step(
    before: SessionView,
    loaded: UniverseView,
    after: SessionView,
    out: Outcome,
) -> bool {
    &&& after == (SessionView { is_loading: false, universe: loaded, ..before })
    &&& out.render
    &&& out.effect is Nothing
}

/// Whether a change of what the map shows takes a session from `before` to
/// `after` with `out`.
pub open spec fn is_map_step(
    before: SessionView,
    features: MapFeaturesView,
    after: SessionView,
    out: Outcome,
) -> bool {
    &&& after == (SessionView { map_features: features, ..before })
    &&& out.render
    &&& out.effect is Nothing
}

/// Whether the pick of a star takes a session from `before` to `after` with
/// `out`.
pub open spec fn is_pick_step(before: SessionView, star: StarView, after: SessionView, out: Outcome)
    -> bool {
    &&& after == (SessionView {
        universe: UniverseView { selected_star: star, ..before.universe },
        ..before
    })
    &&& out.render
    &&& out.effect is Nothing
}

/// Whether a search takes a session from `before` to `after` with `out`:
/// the session stays as it is, and the star that the term names, if it
/// names one, is to be sent back as the one picked.
pub open spec fn is_search_step(
    before: SessionView,
    term: Seq<char>,
    after: SessionView,
    out: Outcome,
) -> bool {
    &&& after == before
    &&& !out.render
    &&& match resolved(before.universe.stars, before.universe.planets, term) {
        Some(k) => out.effect matches Effect::Select(s) && s@ == before.universe.stars[k],
        None => out.effect is Nothing,
    }
}

/// Whether a message takes a session from `before` to `after` with `out`.
pub open spec fn is_step(before: SessionView, msg: Msg, after: SessionView, out: Outcome) -> bool {
    match msg {
        Msg::MakeStarReq => is_request_step(before, Load::Stars, after, out),
        Msg::MakePlanetReq => is_request_step(before, Load::Planets, after, out),
        Msg::MakeResourceReq => is_request_step(before, Load::Resources, after, out),
        Msg::RespStar(Some(stars)) => is_loaded_step(
            before,
            with_stars(before.universe, star_views(stars@)),
            after,
            out,
        ),
        Msg::RespPlanet(Some(planets)) => is_loaded_step(
            before,
            with_planets(before.universe, planet_views(planets@)),
            after,
            out,
        ),
        Msg::RespResource(Some(resources)) => is_loaded_step(
            before,
            with_resources(before.universe, resource_views(resources@)),
            after,
            out,
        ),
        Msg::SelectedStar(star) => is_pick_step(before, star@, after, out),
        Msg::SetScale(scale) => is_map_step(
            before,
            MapFeaturesView { selected_scale: scale, ..before.map_features },
            after,
            out,
        ),
        Msg::SearchStar(name) => is_search_step(before, name@, after, out),
        Msg::Toggle(Toggle::ShowCx, b) => is_map_step(
            before,
            MapFeaturesView { show_cx: b, ..before.map_features },
            after,
            out,
        ),
        Msg::Toggle(Toggle::ShowRoutes, b) => is_map_step(
            before,
            MapFeaturesView { show_routes: b, ..before.map_features },
            after,
            out,
        ),
        Msg::Toggle(Toggle::IncEnvFilter, b) => is_filter_step(
            before,
            FiltersView { env_filter: b, ..before.filters },
            after,
            out,
        ),
        Msg::Toggle(Toggle::IncNormal, b) => is_filter_step(
            before,
            FiltersView { inc_normal: b, ..before.filters },
            after,
            out,
        ),
        Msg::Surface(surface) => is_filter_step(
            before,
            FiltersView { surface, ..before.filters },
            after,
            out,
        ),
        Msg::Environment(Environment::Gravity, option) => is_filter_step(
            before,
            FiltersView { gravity: option, ..before.filters },
            after,
            out,
        ),
        Msg::Environment(Environment::Temp, option) => is_filter_step(
            before,
            FiltersView { temp: option, ..before.filters },
            after,
            out,
        ),
        Msg::Environment(Environment::Pressure, option) => is_filter_step(
            before,
            FiltersView { pressure: option, ..before.filters },
            after,
            out,
        ),
        Msg::SelectedRes(ticker) => is_filter_step(
            before,
            FiltersView { selected_resource_ticker: ticker_view(ticker), ..before.filters },
            after,
            out,
        ),
        Msg::RespStar(None) | Msg::RespPlanet(None) | Msg::RespResource(None) | Msg::TestMe =>
            is_idle_step(before, after, out),
    }
}

impl Session {
    /// A session that has nothing on record yet and waits for its loads.
    pub fn new() -> (s: Self)
        ensures
            s@ == (SessionView {
                is_loading: true,
                universe: crate::universe::blank_universe(),
                map_features: crate::map::initial_features(),
                filters: crate::options::initial_filters(),
            }),
    {
        Session {
            is_loading: true,
            universe: Universe::new(),
            map_features: MapFeatures::new(),
            filters: Filters::new(),
        }
    }

    /// Notes that a load is under way.
    fn request(&mut self, load: Load) -> (out: Outcome)
        ensures
            is_request_step(old(self)@, load, final(self)@, out),
    {
        self.is_loading = true;
        Outcome { render: false, effect: Effect::Fetch(load) }
    }

    /// Takes in the stars.
    fn take_stars(&mut self, stars: Vec<Star>) -> (out: Outcome)
        ensures
            is_loaded_step(
                old(self)@,
                with_stars(old(self)@.universe, star_views(stars@)),
                final(self)@,
                out,
            ),
    {
        self.universe.stars = stars;
        self.universe.fix_star_y();
        self.universe.create_star_list();
        self.is_loading = false;
        Outcome { render: true, effect: Effect::Nothing }
    }

    /// Takes in the planets.
    fn take_planets(&mut self, planets: Vec<Planet>) -> (out: Outcome)
        ensures
            is_loaded_step(
                old(self)@,
                with_planets(old(self)@.universe, planet_views(planets@)),
                final(self)@,
                out,
            ),
    {
        self.universe.planets = planets;
        self.universe.create_star_list();
        self.is_loading = false;
        Outcome { render: true, effect: Effect::Nothing }
    }

    /// Takes in the resources.
    fn take_resources(&mut self, resources: Vec<Resource>) -> (out: Outcome)
        ensures
            is_loaded_step(
                old(self)@,
                with_resources(old(self)@.universe, resource_views(resources@)),
                final(self)@,
                out,
            ),
    {
        self.universe.resources = resources;
        self.universe.create_resource_data();
        self.is_loading = false;
        Outcome { render: true, effect: Effect::Nothing }
    }

    /// Looks up the star that a term names.
    fn search(&mut self, name: String) -> (out: Outcome)
        ensures
            is_search_step(old(self)@, name@, final(self)@, out),
    {
        match self.universe.star_from_name(name) {
            Some(star) => Outcome { render: false, effect: Effect::Select(star) },
            None => Outcome { render: false, effect: Effect::Nothing },
        }
    }

    /// Sets the filters and runs a pass with them, if the records hang
    /// together.
    fn refilter(&mut self, filters: Filters) -> (out: Outcome)
        ensures
            is_filter_step(old(self)@, filters@, final(self)@, out),
    {
        self.filters = filters;
        match self.universe.try_apply_filters(&self.filters) {
            Ok(_) => Outcome { render: true, effect: Effect::Nothing },
            Err(e) => Outcome { render: true, effect: Effect::Fault(e) },
        }
    }

    /// Sets what the map shows.
    fn show(&mut self, toggle: Toggle, on: bool) -> (out: Outcome)
        requires
            toggle == Toggle::ShowCx || toggle == Toggle::ShowRoutes,
        ensures
            is_map_step(
                old(self)@,
                if toggle == Toggle::ShowCx {
                    MapFeaturesView { show_cx: on, ..old(self)@.map_features }
                } else {
                    MapFeaturesView { show_routes: on, ..old(self)@.map_features }
                },
                final(self)@,
                out,
            ),
    {
        match toggle {
            Toggle::ShowCx => {
                self.map_features.show_cx = on;
            },
            _ => {
                self.map_features.show_routes = on;
            },
        }
        Outcome { render: true, effect: Effect::Nothing }
    }

    /// Sets the zoom factor.
    fn zoom(&mut self, scale: i64) -> (out: Outcome)
        ensures
            is_map_step(
                old(self)@,
                MapFeaturesView { selected_scale: scale, ..old(self)@.map_features },
                final(self)@,
                out,
            ),
    {
        self.map_features.set_selected_scale(scale);
        Outcome { render: true, effect: Effect::Nothing }
    }

    /// Notes the star that the user picked.
    fn pick(&mut self, star: Star) -> (out: Outcome)
        ensures
            is_pick_step(old(self)@, star@, final(self)@, out),
    {
        self.universe.selected_star = star;
        Outcome { render: true, effect: Effect::Nothing }
    }

    /// Switches the test of the environment on or off, and runs a pass.
    fn set_env_filter(&mut self, on: bool) -> (out: Outcome)
        ensures
            is_filter_step(
                old(self)@,
                FiltersView { env_filter: on, ..old(self)@.filters },
                final(self)@,
                out,
            ),
    {
        let mut filters = self.filters.clone();
        filters.env_filter = on;
        self.refilter(filters)
    }

    /// Sets whether `Low` and `High` take in the normal band, and runs a
    /// pass.
    fn set_inc_normal(&mut self, on: bool) -> (out: Outcome)
        ensures
            is_filter_step(
                old(self)@,
                FiltersView { inc_normal: on, ..old(self)@.filters },
                final(self)@,
                out,
            ),
    {
        let mut filters = self.filters.clone();
        filters.inc_normal = on;
        self.refilter(filters)
    }

    /// Sets the kind of surface asked for, and runs a pass.
    fn set_surface(&mut self, surface: SurfaceOption) -> (out: Outcome)
        ensures
            is_filter_step(
                old(self)@,
                FiltersView { surface, ..old(self)@.filters },
                final(self)@,
                out,
            ),
    {
        let mut filters = self.filters.clone();
        filters.surface = surface;
        self.refilter(filters)
    }

    /// Sets the band asked for of one property of the environment, and runs
    /// a pass.
    fn set_environment(&mut self, env: Environment, option: EnvironmentOption) -> (out: Outcome)
        ensures
            is_filter_step(
                old(self)@,
                match env {
                    Environment::Gravity => FiltersView { gravity: option, ..old(self)@.filters },
                    Environment::Temp => FiltersView { temp: option, ..old(self)@.filters },
                    Environment::Pressure => FiltersView { pressure: option, ..old(self)@.filters },
                },
                final(self)@,
                out,
            ),
    {
        let mut filters = self.filters.clone();
        match env {
            Environment::Gravity => {
                filters.gravity = option;
            },
            Environment::Temp => {
                filters.temp = option;
            },
            Environment::Pressure => {
                filters.pressure = option;
            },
        }
        self.refilter(filters)
    }

    /// Sets the resource sought, and runs a pass.
    fn seek(&mut self, ticker: Option<String>) -> (out: Outcome)
        ensures
            is_filter_step(
                old(self)@,
                FiltersView {
                    selected_resource_ticker: ticker_view(ticker),
                    ..old(self)@.filters
                },
                final(self)@,
                out,
            ),
    {
        let mut filters = self.filters.clone();
        filters.selected_resource_ticker = ticker;
        self.refilter(filters)
    }

    /// Takes in a message.
    pub fn update(&mut self, msg: Msg) -> (out: Outcome)
        ensures
            is_step(old(self)@, msg, final(self)@, out),
    {
        match msg {
            Msg::MakeStarReq => self.request(Load::Stars),
            Msg::MakePlanetReq => self.request(Load::Planets),
            Msg::MakeResourceReq => self.request(Load::Resources),
            Msg::RespStar(Some(data)) => self.take_stars(data),
            Msg::RespPlanet(Some(data)) => self.take_planets(data),
            Msg::RespResource(Some(data)) => self.take_resources(data),
            Msg::RespStar(None) | Msg::RespPlanet(None) | Msg::RespResource(None) | Msg::TestMe => {
                Outcome { render: true, effect: Effect::Nothing }
            },
            Msg::SelectedStar(star) => self.pick(star),
            Msg::SetScale(scale) => self.zoom(scale),
            Msg::SearchStar(name) => self.search(name),
            Msg::Toggle(Toggle::ShowCx, on) => self.show(Toggle::ShowCx, on),
            Msg::Toggle(Toggle::ShowRoutes, on) => self.show(Toggle::ShowRoutes, on),
            Msg::Toggle(Toggle::IncEnvFilter, on) => self.set_env_filter(on),
            Msg::Toggle(Toggle::IncNormal, on) => self.set_inc_normal(on),
            Msg::Surface(surface) => self.set_surface(surface),
            Msg::Environment(env, option) => self.set_environment(env, option),
            Msg::SelectedRes(ticker) => self.seek(ticker),
        }
    }
}

} // verus!
