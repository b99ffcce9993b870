//! The records of a universe: stars, their planets, and the resources found
//! on planets, each with the plain value that contracts speak of.

use crate::options::{EnvironmentOption, Filters, FiltersView, SurfaceOption};
use vstd::prelude::*;

verus! {

/// The lowest and highest gravity that count as normal.
pub const GRAVITY_MIN: i64 = 250_000;

pub const GRAVITY_MAX: i64 = 2_500_000;

/// The lowest and highest temperature that count as normal.
pub const TEMP_MIN: i64 = -25_000_000;

pub const TEMP_MAX: i64 = 75_000_000;

/// The lowest and highest pressure that count as normal.
pub const PRESSURE_MIN: i64 = 250_000;

pub const PRESSURE_MAX: i64 = 2_000_000;

/// A resource found on a planet.
#[derive(PartialEq, Eq, Debug)]
pub struct Resource {
    /// The catalog designation of the planet that holds it.
    pub planet: String,
    /// The code of the kind of resource; many planets may hold the same kind.
    pub ticker: String,
    pub typ: String,
    /// How rich the deposit is.
    pub factor: i64,
    /// Whether the last pass found this to be the resource sought.
    pub filtered: bool,
}

/// A resource as plain values.
pub struct ResourceView {
    pub planet: Seq<char>,
    pub ticker: Seq<char>,
    pub typ: Seq<char>,
    pub factor: i64,
    pub filtered: bool,
}

impl View for Resource {
    type V = ResourceView;

    open spec fn view(&self) -> ResourceView {
        ResourceView {
            planet: self.planet@,
            ticker: self.ticker@,
            typ: self.typ@,
            factor: self.factor,
            filtered: self.filtered,
        }
    }
}

impl Clone for Resource {
    fn clone(&self) -> (r: Self)
        ensures
            r@ == self@,
    {
        Resource {
            planet: self.planet.clone(),
            ticker: self.ticker.clone(),
            typ: self.typ.clone(),
            factor: self.factor,
            filtered: self.filtered,
        }
    }
}

/// A planet of some star.
#[derive(PartialEq, Eq, Debug)]
pub struct Planet {
    /// The identity of the star it circles.
    pub sys_id: String,
    pub name: String,
    /// The catalog designation.
    pub nat_id: String,
    /// Rocky if true, gaseous if not.
    pub surface: bool,
    pub gravity: i64,
    pub temp: i64,
    pub pressure: i64,
    pub fertility: i64,
    /// Whether the last pass found the planet's environment to fit.
    pub filtered: bool,
}

/// A planet as plain values.
pub struct PlanetView {
    pub sys_id: Seq<char>,
    pub name: Seq<char>,
    pub nat_id: Seq<char>,
    pub surface: bool,
    pub gravity: i64,
    pub temp: i64,
    pub pressure: i64,
    pub fertility: i64,
    pub filtered: bool,
}

impl View for Planet {
    type V = PlanetView;

    open spec fn view(&self) -> PlanetView {
        PlanetView {
            sys_id: self.sys_id@,
            name: self.name@,
            nat_id: self.nat_id@,
            surface: self.surface,
            gravity: self.gravity,
            temp: self.temp,
            pressure: self.pressure,
            fertility: self.fertility,
            filtered: self.filtered,
        }
    }
}

impl Clone for Planet {
    fn clone(&self) -> (r: Self)
        ensures
            r@ == self@,
    {
        Planet {
            sys_id: self.sys_id.clone(),
            name: self.name.clone(),
            nat_id: self.nat_id.clone(),
            surface: self.surface,
            gravity: self.gravity,
            temp: self.temp,
            pressure: self.pressure,
            fertility: self.fertility,
            filtered: self.filtered,
        }
    }
}

/// Whether a surface is of the kind asked for.
pub open spec fn surface_passes(option: SurfaceOption, rocky: bool) -> bool {
    match option {
        SurfaceOption::Rocky => rocky,
        SurfaceOption::Gaseous => !rocky,
        SurfaceOption::Both => true,
    }
}

/// Whether a value lies in the band asked for, where the normal band runs
/// from `min` to `max`, both included. `Low` is everything below the normal
/// band, `High` everything above it; with `inc_normal` each of the two also
/// takes in the normal band, but for its far end.
pub open spec fn range_passes(
    option: EnvironmentOption,
    value: i64,
    inc_normal: bool,
    min: i64,
    max: i64,
) -> bool {
    match option {
        EnvironmentOption::Low => value < if inc_normal { max } else { min },
        EnvironmentOption::High => value > if inc_normal { min } else { max },
        EnvironmentOption::Normal => min <= value <= max,
        EnvironmentOption::Ignore => true,
    }
}

/// Whether a planet's environment fits the filters: always, when the
/// environment is not filtered; else when its surface, gravity, temperature
/// and pressure all do.
pub open spec fn planet_passes(p: PlanetView, f: FiltersView) -> bool {
    f.env_filter ==> {
        &&& surface_passes(f.surface, p.surface)
        &&& range_passes(f.gravity, p.gravity, f.inc_normal, GRAVITY_MIN, GRAVITY_MAX)
        &&& range_passes(f.temp, p.temp, f.inc_normal, TEMP_MIN, TEMP_MAX)
        &&& range_passes(f.pressure, p.pressure, f.inc_normal, PRESSURE_MIN, PRESSURE_MAX)
    }
}

impl Planet {
    /// Tests the planet against the filters and records the outcome in
    /// `filtered`.
    pub fn apply_filters(&mut self, filters: &Filters) -> (passed: bool)
        ensures
            passed == planet_passes(old(self)@, filters@),
            final(self)@ == (PlanetView { filtered: passed, ..old(self)@ }),
            !filters.env_filter ==> passed,
            filters.env_filter && filters.surface == SurfaceOption::Gaseous && old(self).surface
                ==> !passed,
    {
        self.filtered = if filters.env_filter {
            (match filters.surface {
                SurfaceOption::Rocky => self.surface,
                SurfaceOption::Gaseous => !self.surface,
                SurfaceOption::Both => true,
            }) && self.check_extremes(
                &filters.gravity,
                self.gravity,
                filters.inc_normal,
                GRAVITY_MIN,
                GRAVITY_MAX,
            ) && self.check_extremes(
                &filters.temp,
                self.temp,
                filters.inc_normal,
                TEMP_MIN,
                TEMP_MAX,
            ) && self.check_extremes(
                &filters.pressure,
                self.pressure,
                filters.inc_normal,
                PRESSURE_MIN,
                PRESSURE_MAX,
            )
        } else {
            true
        };
        self.filtered
    }

    /// Tests one measured value against the band asked for.
    pub fn check_extremes(
        &self,
        environment: &EnvironmentOption,
        value: i64,
        inc_normal: bool,
        min: i64,
        max: i64,
    ) -> (fits: bool)
        ensures
            fits == range_passes(*environment, value, inc_normal, min, max),
    {
        match environment {
            EnvironmentOption::Low => value < if inc_normal { max } else { min },
            EnvironmentOption::High => value > if inc_normal { min } else { max },
            EnvironmentOption::Normal => min <= value && value <= max,
            EnvironmentOption::Ignore => true,
        }
    }
}

/// A route from a star to a neighbour.
#[derive(PartialEq, Eq, Debug)]
pub struct Connection {
    /// The identity of the neighbouring star.
    pub connection: String,
}

impl View for Connection {
    type V = Seq<char>;

    open spec fn view(&self) -> Seq<char> {
        self.connection@
    }
}

impl Clone for Connection {
    fn clone(&self) -> (r: Self)
        ensures
            r@ == self@,
    {
        Connection { connection: self.connection.clone() }
    }
}

/// A star system.
#[derive(PartialEq, Eq, Debug)]
pub struct Star {
    /// The identity of the system.
    pub sys_id: String,
    pub name: String,
    /// The catalog designation.
    pub nat_id: String,
    pub typ: String,
    pub x: i64,
    pub y: i64,
    pub z: i64,
    pub connections: Vec<Connection>,
    /// What the last pass found at this star: nothing if zero, else the
    /// richness of the best deposit of the resource sought on a fitting
    /// planet, or one if no resource was sought.
    pub res_factor: i64,
}

/// A star as plain values.
pub struct StarView {
    pub sys_id: Seq<char>,
    pub name: Seq<char>,
    pub nat_id: Seq<char>,
    pub typ: Seq<char>,
    pub x: i64,
    pub y: i64,
    pub z: i64,
    pub connections: Seq<Seq<char>>,
    pub res_factor: i64,
}

/// The neighbours named by a list of routes.
pub open spec fn connection_views(s: Seq<Connection>) -> Seq<Seq<char>> {
    s.map_values(|c: Connection| c@)
}

impl View for Star {
    type V = StarView;

    open spec fn view(&self) -> StarView {
        StarView {
            sys_id: self.sys_id@,
            name: self.name@,
            nat_id: self.nat_id@,
            typ: self.typ@,
            x: self.x,
            y: self.y,
            z: self.z,
            connections: connection_views(self.connections@),
            res_factor: self.res_factor,
        }
    }
}

impl Clone for Star {
    fn clone(&self) -> (r: Self)
        ensures
            r@ == self@,
    {
        let connections = self.connections.clone();
        proof {
            assert(connection_views(connections@) =~= connection_views(self.connections@));
        }
        Star {
            sys_id: self.sys_id.clone(),
            name: self.name.clone(),
            nat_id: self.nat_id.clone(),
            typ: self.typ.clone(),
            x: self.x,
            y: self.y,
            z: self.z,
            connections,
            res_factor: self.res_factor,
        }
    }
}

/// A star with no name, at the origin, with nothing found at it.
pub open spec fn blank_star() -> StarView {
    StarView {
        sys_id: Seq::empty(),
        name: Seq::empty(),
        nat_id: Seq::empty(),
        typ: Seq::empty(),
        x: 0,
        y: 0,
        z: 0,
        connections: Seq::empty(),
        res_factor: 0,
    }
}

impl Star {
    /// A star with no name, at the origin, with nothing found at it.
    pub fn new() -> (s: Self)
        ensures
            s@ == blank_star(),
    {
        let s = Star {
            sys_id: String::new(),
            name: String::new(),
            nat_id: String::new(),
            typ: String::new(),
            x: 0,
            y: 0,
            z: 0,
            connections: Vec::new(),
            res_factor: 0,
        };
        proof {
            assert(connection_views(s.connections@) =~= Seq::empty());
        }
        s
    }
}

/// The plain values of a star, if there is one.
pub open spec fn star_view_of(star: Option<Star>) -> Option<StarView> {
    match star {
        Some(s) => Some(s@),
        None => None,
    }
}

/// The plain values of a list of stars.
pub open spec fn star_views(s: Seq<Star>) -> Seq<StarView> {
    s.map_values(|x: Star| x@)
}

/// The plain values of a list of planets.
pub open spec fn planet_views(s: Seq<Planet>) -> Seq<PlanetView> {
    s.map_values(|x: Planet| x@)
}

/// The plain values of a list of resources.
pub open spec fn resource_views(s: Seq<Resource>) -> Seq<ResourceView> {
    s.map_values(|x: Resource| x@)
}

} // verus!
