use plexucra::entities::{Planet, Resource, Star};
use plexucra::options::{EnvironmentOption, Filters, SurfaceOption};
use plexucra::universe::Universe;

/// A planet, a resource and a star with measured quantities in floating
/// point, on which a pass is worked out a second time, independently.
#[derive(Clone)]
struct FloatPlanet {
    sys_id: String,
    nat_id: String,
    surface: bool,
    gravity: f64,
    temp: f64,
    pressure: f64,
    filtered: bool,
}

#[derive(Clone)]
struct FloatResource {
    planet: String,
    ticker: String,
    factor: f64,
    filtered: bool,
}

#[derive(Clone)]
struct FloatStar {
    sys_id: String,
    x: f64,
    y: f64,
    res_factor: f64,
}

struct FloatUniverse {
    stars: Vec<FloatStar>,
    planets: Vec<FloatPlanet>,
    resources: Vec<FloatResource>,
    planets_with_env: usize,
    planets_with_res: usize,
    stars_lit: usize,
    hits: Vec<(String, String, f64)>,
}

struct Dice(u64);

impl Dice {
    fn roll(&mut self, sides: u64) -> u64 {
        self.0 = self.0.wrapping_mul(6364136223846793005).wrapping_add(1442695040888963407);
        (self.0 >> 33) % sides
    }
}

fn fx(v: f64) -> i64 {
    (v * 1_000_000.0).round() as i64
}

fn in_band(option: EnvironmentOption, value: f64, inc_normal: bool, min: f64, max: f64) -> bool {
    match option {
        EnvironmentOption::Low => value < if inc_normal { max } else { min },
        EnvironmentOption::High => value > if inc_normal { min } else { max },
        EnvironmentOption::Normal => min <= value && value <= max,
        EnvironmentOption::Ignore => true,
    }
}

fn float_pass(u: &mut FloatUniverse, f: &Filters) {
    u.planets_with_env = 0;
    u.planets_with_res = 0;
    u.hits.clear();
    for p in u.planets.iter_mut() {
        p.filtered = if f.env_filter {
            (match f.surface {
                SurfaceOption::Rocky => p.surface,
                SurfaceOption::Gaseous => !p.surface,
                SurfaceOption::Both => true,
            }) && in_band(f.gravity, p.gravity, f.inc_normal, 0.25, 2.5)
                && in_band(f.temp, p.temp, f.inc_normal, -25.0, 75.0)
                && in_band(f.pressure, p.pressure, f.inc_normal, 0.25, 2.0)
        } else {
            true
        };
        if p.filtered {
            u.planets_with_env += 1;
        }
    }
    u.resources.iter_mut().for_each(|r| r.filtered = false);
    u.stars.iter_mut().for_each(|s| s.res_factor = 0.0);
    match &f.selected_resource_ticker {
        Some(ticker) => {
            for r in u.resources.iter_mut() {
                if r.ticker == *ticker {
                    r.filtered = true;
                    u.planets_with_res += 1;
                    let p = u.planets.iter().find(|p| p.nat_id == r.planet).unwrap();
                    if p.filtered {
                        let s = u.stars.iter_mut().find(|s| s.sys_id == p.sys_id).unwrap();
                        s.res_factor = s.res_factor.max(r.factor);
                        u.hits.push((p.nat_id.clone(), r.ticker.clone(), r.factor));
                    }
                }
            }
            u.hits.sort_by(|a, b| b.2.partial_cmp(&a.2).unwrap());
        }
        None => {
            for p in u.planets.iter() {
                if p.filtered {
                    let s = u.stars.iter_mut().find(|s| s.sys_id == p.sys_id).unwrap();
                    s.res_factor = 1.0;
                }
            }
        }
    }
    u.stars_lit = u.stars.iter().filter(|s| s.res_factor > 0.0).count();
}

/// A universe thrown by the dice, with every measured quantity on a grid of
/// binary fractions, so that both forms of it hold exactly the same numbers.
fn thrown(dice: &mut Dice, stars: u64, planets: u64, resources: u64) -> (FloatUniverse, Universe) {
    let tickers = ["FE", "H2O", "AL", "HE", "O"];
    let mut fu = FloatUniverse {
        stars: Vec::new(),
        planets: Vec::new(),
        resources: Vec::new(),
        planets_with_env: 0,
        planets_with_res: 0,
        stars_lit: 0,
        hits: Vec::new(),
    };
    let mut u = Universe::new();
    for i in 0..stars {
        let x = dice.roll(4001) as f64 / 4.0 - 500.0;
        let y = dice.roll(4001) as f64 / 4.0 - 500.0;
        fu.stars.push(FloatStar { sys_id: format!("sys{}", i), x, y, res_factor: 0.0 });
        let mut s = Star::new();
        s.sys_id = format!("sys{}", i);
        s.nat_id = format!("AA-{:03}", i);
        s.name = format!("Star {}", i);
        s.x = fx(x);
        s.y = fx(y);
        u.stars.push(s);
    }
    for i in 0..planets {
        let sys_id = format!("sys{}", dice.roll(stars));
        let nat_id = format!("pl{}", i);
        let surface = dice.roll(2) == 0;
        let gravity = dice.roll(25) as f64 / 8.0;
        let temp = dice.roll(141) as f64 - 45.0;
        let pressure = dice.roll(21) as f64 / 8.0;
        fu.planets.push(FloatPlanet {
            sys_id: sys_id.clone(),
            nat_id: nat_id.clone(),
            surface,
            gravity,
            temp,
            pressure,
            filtered: false,
        });
        u.planets.push(Planet {
            sys_id,
            name: nat_id.clone(),
            nat_id,
            surface,
            gravity: fx(gravity),
            temp: fx(temp),
            pressure: fx(pressure),
            fertility: 0,
            filtered: false,
        });
    }
    for _ in 0..resources {
        let planet = format!("pl{}", dice.roll(planets));
        let ticker = tickers[dice.roll(tickers.len() as u64) as usize].to_string();
        let factor = dice.roll(65) as f64 / 64.0;
        fu.resources.push(FloatResource {
            planet: planet.clone(),
            ticker: ticker.clone(),
            factor,
            filtered: false,
        });
        u.resources.push(Resource {
            planet,
            ticker,
            typ: "mineral".to_string(),
            factor: fx(factor),
            filtered: false,
        });
    }
    (fu, u)
}

fn thrown_filters(dice: &mut Dice) -> Filters {
    let band = |d: &mut Dice| match d.roll(4) {
        0 => EnvironmentOption::Normal,
        1 => EnvironmentOption::Low,
        2 => EnvironmentOption::High,
        _ => EnvironmentOption::Ignore,
    };
    let mut f = Filters::new();
    f.env_filter = dice.roll(4) != 0;
    f.inc_normal = dice.roll(2) == 0;
    f.surface = match dice.roll(3) {
        0 => SurfaceOption::Rocky,
        1 => SurfaceOption::Gaseous,
        _ => SurfaceOption::Both,
    };
    f.gravity = band(dice);
    f.temp = band(dice);
    f.pressure = band(dice);
    f.selected_resource_ticker = match dice.roll(7) {
        0 => None,
        1 => Some("XX".to_string()),
        2 => Some("FE".to_string()),
        3 => Some("H2O".to_string()),
        4 => Some("AL".to_string()),
        5 => Some("HE".to_string()),
        _ => Some("O".to_string()),
    };
    f
}

fn agree(fu: &FloatUniverse, u: &Universe) {
    assert_eq!(fu.planets.len(), u.planets.len());
    for (a, b) in fu.planets.iter().zip(u.planets.iter()) {
        assert_eq!(a.filtered, b.filtered, "planet {}", a.nat_id);
    }
    for (a, b) in fu.resources.iter().zip(u.resources.iter()) {
        assert_eq!(a.filtered, b.filtered, "resource on {}", a.planet);
    }
    for (a, b) in fu.stars.iter().zip(u.stars.iter()) {
        assert_eq!(fx(a.res_factor), b.res_factor, "star {}", a.sys_id);
    }
    assert_eq!(fu.planets_with_env, u.diagnostics.planets_with_env);
    assert_eq!(fu.planets_with_res, u.diagnostics.planets_with_res);
    assert_eq!(fu.stars_lit, u.diagnostics.stars_with_planets_with_env_res);
    let hits: Vec<(String, String, i64)> = u
        .diagnostics
        .filter_hits
        .iter()
        .map(|(p, r)| (p.nat_id.clone(), r.ticker.clone(), r.factor))
        .collect();
    let expected: Vec<(String, String, i64)> =
        fu.hits.iter().map(|(p, t, f)| (p.clone(), t.clone(), fx(*f))).collect();
    assert_eq!(hits, expected);
}

#[test]
fn passes_agree_with_a_pass_worked_out_in_floating_point() {
    let mut dice = Dice(2024);
    for round in 0..40 {
        let (mut fu, mut u) = thrown(&mut dice, 1 + round % 7, 1 + round % 11, round * 3);
        assert_eq!(u.integrity(), Ok(()));
        for _ in 0..6 {
            let f = thrown_filters(&mut dice);
            float_pass(&mut fu, &f);
            u.apply_filters(&f);
            agree(&fu, &u);
        }
    }
}

#[test]
fn nearest_star_agrees_with_a_search_in_floating_point() {
    let mut dice = Dice(7);
    for round in 0..30 {
        let (fu, u) = thrown(&mut dice, 1 + round, 1, 0);
        for _ in 0..20 {
            let x = dice.roll(4001) as f64 / 4.0 - 500.0;
            let y = dice.roll(4001) as f64 / 4.0 - 500.0;
            let mut best = 0;
            let mut shortest = f64::INFINITY;
            for (i, s) in fu.stars.iter().enumerate() {
                let d = (s.x - x).powf(2.0) + (s.y - y).powf(2.0);
                if d < shortest {
                    best = i;
                    shortest = d;
                }
            }
            assert_eq!(u.nearest_star_index(fx(x), fx(y)), Some(best));
        }
    }
}

#[test]
fn a_pass_over_thousands_of_records_ends() {
    let mut dice = Dice(99);
    let (mut fu, mut u) = thrown(&mut dice, 1500, 4000, 9000);
    assert_eq!(u.integrity(), Ok(()));
    let mut f = Filters::new();
    f.env_filter = false;
    f.selected_resource_ticker = Some("FE".to_string());
    float_pass(&mut fu, &f);
    u.apply_filters(&f);
    agree(&fu, &u);
    assert!(u.diagnostics.planets_with_env_res() > 1000);
    u.create_star_list();
    u.create_resource_data();
    assert_eq!(u.res_list.len(), 6);
    assert_eq!(u.star_list.len(), 3000);
    assert!(u.nearest_star(0, 0).is_some());
    assert!(u.star_from_name("STAR 1499".to_string()).is_some());
}
