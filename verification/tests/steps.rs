use plexucra::catalog::sought_ticker;
use plexucra::entities::{Planet, Resource, Star};
use plexucra::filtering::{count_lit, mark_sought, reset_stars, screen_planets};
use plexucra::integrity::IntegrityError;
use plexucra::options::{EnvironmentOption, Filters, SurfaceOption};
use plexucra::ranking::rank;
use plexucra::universe::Universe;

fn body(sys_id: &str, nat_id: &str, surface: bool, gravity: i64) -> Planet {
    Planet {
        sys_id: sys_id.to_string(),
        name: nat_id.to_string(),
        nat_id: nat_id.to_string(),
        surface,
        gravity,
        temp: 20_000_000,
        pressure: 1_000_000,
        fertility: 0,
        filtered: false,
    }
}

fn lode(planet: &str, ticker: &str, factor: i64) -> Resource {
    Resource {
        planet: planet.to_string(),
        ticker: ticker.to_string(),
        typ: "ore".to_string(),
        factor,
        filtered: false,
    }
}

fn light(sys_id: &str, res_factor: i64) -> Star {
    let mut s = Star::new();
    s.sys_id = sys_id.to_string();
    s.res_factor = res_factor;
    s
}

#[test]
fn screening_marks_and_counts_the_fitting_planets() {
    let mut planets = vec![
        body("s", "a", true, 1_000_000),
        body("s", "b", true, 3_000_000),
        body("s", "c", false, 1_000_000),
        body("s", "d", true, 250_000),
    ];
    planets[1].filtered = true;
    let count = screen_planets(&mut planets, &Filters::new());
    assert_eq!(count, 2);
    let marks: Vec<bool> = planets.iter().map(|p| p.filtered).collect();
    assert_eq!(marks, vec![true, false, false, true]);
    let mut f = Filters::new();
    f.surface = SurfaceOption::Both;
    f.gravity = EnvironmentOption::High;
    f.inc_normal = false;
    assert_eq!(screen_planets(&mut planets, &f), 1);
    let marks: Vec<bool> = planets.iter().map(|p| p.filtered).collect();
    assert_eq!(marks, vec![false, true, false, false]);
    assert_eq!(screen_planets(&mut Vec::new(), &f), 0);
}

#[test]
fn marking_tells_the_sought_resources_from_the_others() {
    let mut resources = vec![lode("a", "FE", 1), lode("b", "H2O", 2), lode("c", "FE", 3)];
    resources[1].filtered = true;
    assert_eq!(mark_sought(&mut resources, &Some("FE".to_string())), 2);
    let marks: Vec<bool> = resources.iter().map(|r| r.filtered).collect();
    assert_eq!(marks, vec![true, false, true]);
    assert_eq!(mark_sought(&mut resources, &Some("fe".to_string())), 0);
    assert!(resources.iter().all(|r| !r.filtered));
    resources[0].filtered = true;
    assert_eq!(mark_sought(&mut resources, &None), 0);
    assert!(resources.iter().all(|r| !r.filtered));
    assert_eq!(resources[2].factor, 3);
}

#[test]
fn resetting_and_counting_stars() {
    let mut stars = vec![light("a", 5), light("b", 0), light("c", -5), light("d", 1)];
    assert_eq!(count_lit(&stars), 2);
    reset_stars(&mut stars);
    assert!(stars.iter().all(|s| s.res_factor == 0));
    assert_eq!(stars[3].sys_id, "d");
    assert_eq!(count_lit(&stars), 0);
    assert_eq!(count_lit(&Vec::new()), 0);
}

#[test]
fn ranking_is_stable_and_descending() {
    let hit = |name: &str, factor: i64| (body("s", name, true, 0), lode(name, "FE", factor));
    let ranked = rank(vec![hit("a", 3), hit("b", 9), hit("c", 3), hit("d", -1), hit("e", 9), hit("f", 3)]);
    let order: Vec<(&str, i64)> = ranked.iter().map(|h| (h.0.nat_id.as_str(), h.1.factor)).collect();
    assert_eq!(order, vec![("b", 9), ("e", 9), ("a", 3), ("c", 3), ("f", 3), ("d", -1)]);
    assert!(rank(Vec::new()).is_empty());
    let one = rank(vec![hit("z", i64::MIN)]);
    assert_eq!(one.len(), 1);
    let mut expected = vec![hit("a", 2), hit("b", 1), hit("c", 2), hit("d", 3), hit("e", 1)];
    let ranked = rank(vec![hit("a", 2), hit("b", 1), hit("c", 2), hit("d", 3), hit("e", 1)]);
    expected.sort_by(|x, y| y.1.factor.cmp(&x.1.factor));
    assert_eq!(ranked, expected);
}

#[test]
fn choice_of_no_resource_seeks_none() {
    assert_eq!(sought_ticker("-None-".to_string()), None);
    assert_eq!(sought_ticker("FE".to_string()), Some("FE".to_string()));
    assert_eq!(sought_ticker("".to_string()), Some("".to_string()));
    assert_eq!(sought_ticker("-none-".to_string()), Some("-none-".to_string()));
    assert_eq!(sought_ticker("- None -".to_string()), Some("- None -".to_string()));
}

#[test]
fn try_apply_filters_runs_a_pass_on_sound_records() {
    let mut u = Universe::new();
    u.stars = vec![light("s", 7)];
    u.planets = vec![body("s", "a", true, 1_000_000)];
    u.resources = vec![lode("a", "FE", 400_000)];
    let mut f = Filters::new();
    f.selected_resource_ticker = Some("FE".to_string());
    let mut expected = u.clone();
    expected.apply_filters(&f);
    assert_eq!(u.try_apply_filters(&f), Ok(()));
    assert_eq!(u, expected);
    assert_eq!(u.stars[0].res_factor, 400_000);
}

#[test]
fn try_apply_filters_leaves_broken_records_alone() {
    let mut u = Universe::new();
    u.stars = vec![light("s", 7)];
    u.planets = vec![body("s", "a", true, 1_000_000), body("t", "b", true, 1_000_000)];
    u.resources = vec![lode("a", "FE", 400_000), lode("zz", "FE", 1)];
    let before = u.clone();
    let f = Filters::new();
    assert_eq!(u.try_apply_filters(&f), Err(IntegrityError::UnknownStar { planet: 1 }));
    assert_eq!(u, before);
    u.planets.pop();
    let before = u.clone();
    assert_eq!(u.try_apply_filters(&f), Err(IntegrityError::UnknownPlanet { resource: 1 }));
    assert_eq!(u, before);
}
