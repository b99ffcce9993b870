use plexucra::catalog::upsert;
use plexucra::entities::{Planet, Resource, Star};
use plexucra::map::{screen_coordinate, world_coordinate, MapFeatures, MapFrame};
use plexucra::marker::{concentration_band, star_marker, Band, Marker};
use plexucra::options::{
    to_env_option, to_surface_option, EnvironmentOption, Filters, SurfaceOption,
};
use plexucra::text::{comes_before, same_ignoring_case, same_text, to_upper};
use plexucra::universe::Universe;

fn fx(v: f64) -> i64 {
    (v * 1_000_000.0).round() as i64
}

fn sun(sys_id: &str, nat_id: &str, name: &str) -> Star {
    let mut s = Star::new();
    s.sys_id = sys_id.to_string();
    s.nat_id = nat_id.to_string();
    s.name = name.to_string();
    s
}

fn globe(sys_id: &str, nat_id: &str, name: &str) -> Planet {
    Planet {
        sys_id: sys_id.to_string(),
        name: name.to_string(),
        nat_id: nat_id.to_string(),
        surface: true,
        gravity: 0,
        temp: 0,
        pressure: 0,
        fertility: 0,
        filtered: false,
    }
}

fn ore(planet: &str, ticker: &str, factor: f64) -> Resource {
    Resource {
        planet: planet.to_string(),
        ticker: ticker.to_string(),
        typ: "ore".to_string(),
        factor: fx(factor),
        filtered: false,
    }
}

#[test]
fn star_list_holds_designations_and_differing_names() {
    let mut u = Universe::new();
    u.stars = vec![sun("s1", "OT-580", "Benten"), sun("s2", "UV-351", "UV-351")];
    u.planets = vec![globe("s1", "OT-580a", "Umbra"), globe("s1", "OT-580b", "OT-580b")];
    u.create_star_list();
    assert_eq!(u.star_list, vec!["OT-580", "Benten", "UV-351", "Umbra"]);
}

#[test]
fn star_list_is_drawn_up_anew() {
    let mut u = Universe::new();
    u.star_list = vec!["stale".to_string()];
    u.stars = vec![sun("s1", "OT-580", "Benten")];
    u.create_star_list();
    assert_eq!(u.star_list, vec!["OT-580", "Benten"]);
    u.create_star_list();
    assert_eq!(u.star_list, vec!["OT-580", "Benten"]);
    u.planets = vec![globe("s1", "OT-580a", "Umbra")];
    u.create_star_list();
    assert_eq!(u.star_list, vec!["OT-580", "Benten", "Umbra"]);
    u.stars.clear();
    u.planets.clear();
    u.create_star_list();
    assert!(u.star_list.is_empty());
}

#[test]
fn resource_data_holds_the_richest_deposit_of_each_ticker() {
    let mut u = Universe::new();
    u.resources = vec![
        ore("a", "H2O", 0.2),
        ore("b", "FE", 0.3),
        ore("c", "H2O", 0.7),
        ore("d", "AL", 0.1),
        ore("e", "FE", 0.25),
        ore("f", "H2O", 0.5),
    ];
    u.create_resource_data();
    assert_eq!(
        u.res_max_factor,
        vec![("AL".to_string(), fx(0.1)), ("FE".to_string(), fx(0.3)), ("H2O".to_string(), fx(0.7))]
    );
    assert_eq!(u.res_list, vec!["-None-", "AL", "FE", "H2O"]);
    assert_eq!(u.max_factor("FE"), Some(fx(0.3)));
    assert_eq!(u.max_factor("H2O"), Some(fx(0.7)));
    assert_eq!(u.max_factor("AL"), Some(fx(0.1)));
    assert_eq!(u.max_factor("fe"), None);
    assert_eq!(u.max_factor("-None-"), None);
}

#[test]
fn resource_data_is_drawn_up_anew() {
    let mut u = Universe::new();
    u.res_max_factor = vec![("OLD".to_string(), fx(9.0))];
    u.res_list = vec!["OLD".to_string()];
    u.resources = vec![ore("a", "FE", 0.3)];
    u.create_resource_data();
    assert_eq!(u.res_max_factor, vec![("FE".to_string(), fx(0.3))]);
    assert_eq!(u.res_list, vec!["-None-", "FE"]);
    u.create_resource_data();
    assert_eq!(u.res_max_factor, vec![("FE".to_string(), fx(0.3))]);
    assert_eq!(u.res_list, vec!["-None-", "FE"]);
}

#[test]
fn resource_data_of_no_resources_offers_only_none() {
    let mut u = Universe::new();
    u.create_resource_data();
    assert!(u.res_max_factor.is_empty());
    assert_eq!(u.res_list, vec!["-None-"]);
}

#[test]
fn resource_list_is_sorted_as_strings_are() {
    let mut u = Universe::new();
    let names = ["b", "B", "a", "ab", "", "Z", "é", "z", "a", "10", "9", "aB", "A"];
    u.resources = names.iter().map(|t| ore("p", t, 0.5)).collect();
    u.create_resource_data();
    let mut expected: Vec<String> = names.iter().map(|s| s.to_string()).collect();
    expected.sort();
    expected.dedup();
    expected.insert(0, "-None-".to_string());
    assert_eq!(u.res_list, expected);
}

#[test]
fn richest_deposit_is_never_below_zero() {
    let mut u = Universe::new();
    u.resources = vec![ore("a", "FE", -0.3), ore("b", "AL", -0.1), ore("c", "AL", -0.2)];
    u.create_resource_data();
    assert_eq!(u.res_max_factor, vec![("AL".to_string(), 0), ("FE".to_string(), 0)]);
}

#[test]
fn upsert_keeps_the_richer_factor_and_the_order() {
    let mut table: Vec<(String, i64)> = Vec::new();
    upsert(&mut table, &"M".to_string(), 5);
    upsert(&mut table, &"A".to_string(), 3);
    upsert(&mut table, &"Z".to_string(), 1);
    upsert(&mut table, &"M".to_string(), 4);
    upsert(&mut table, &"M".to_string(), 6);
    upsert(&mut table, &"N".to_string(), -6);
    assert_eq!(
        table,
        vec![
            ("A".to_string(), 3),
            ("M".to_string(), 6),
            ("N".to_string(), 0),
            ("Z".to_string(), 1)
        ]
    );
}

#[test]
fn texts_are_ordered_by_code_point() {
    assert!(comes_before("a", "b"));
    assert!(!comes_before("b", "a"));
    assert!(!comes_before("a", "a"));
    assert!(comes_before("", "a"));
    assert!(!comes_before("a", ""));
    assert!(!comes_before("", ""));
    assert!(comes_before("ab", "abc"));
    assert!(!comes_before("abc", "ab"));
    assert!(comes_before("B", "a"));
    assert!(comes_before("abd", "abe"));
    assert!(comes_before("z", "é"));
    assert!(comes_before("é", "日"));
    for (a, b) in [("FE", "H2O"), ("H", "FE"), ("x", "x"), ("", "x"), ("é", "e"), ("10", "9")] {
        assert_eq!(comes_before(a, b), a < b);
    }
}

#[test]
fn texts_are_compared_character_by_character() {
    assert!(same_text("", ""));
    assert!(same_text("OT-580", "OT-580"));
    assert!(!same_text("OT-580", "OT-581"));
    assert!(!same_text("OT-580", "OT-58"));
    assert!(!same_text("OT-58", "OT-580"));
    assert!(!same_text("a", "A"));
    assert!(same_text("é日", "é日"));
}

#[test]
fn letter_case_is_set_aside_for_ascii_only() {
    assert!(same_ignoring_case("Benten", "BENTEN"));
    assert!(same_ignoring_case("benten", "bEnTeN"));
    assert!(same_ignoring_case("", ""));
    assert!(!same_ignoring_case("Benten", "Bente"));
    assert!(!same_ignoring_case("Bente", "Benten"));
    assert!(!same_ignoring_case("Benten", "Bentem"));
    assert!(!same_ignoring_case("é", "É"));
    assert!(same_ignoring_case("aé-1", "Aé-1"));
    assert!(!same_ignoring_case("[", "{"));
    assert!(!same_ignoring_case("@", "`"));
    for (a, b) in [("Hortus", "hortus"), ("Hortus", "Hartus"), ("k", "K"), ("K", "\u{212A}")] {
        assert_eq!(same_ignoring_case(a, b), a.eq_ignore_ascii_case(b));
    }
}

#[test]
fn upper_case_of_each_character() {
    for code in 0u32..0x250 {
        if let Some(c) = char::from_u32(code) {
            assert_eq!(to_upper(c), c.to_ascii_uppercase());
        }
    }
    assert_eq!(to_upper('a'), 'A');
    assert_eq!(to_upper('z'), 'Z');
    assert_eq!(to_upper('A'), 'A');
    assert_eq!(to_upper('-'), '-');
    assert_eq!(to_upper('é'), 'é');
    assert_eq!(to_upper('\u{10FFFF}'), '\u{10FFFF}');
}

#[test]
fn surface_options_are_named_and_read() {
    assert_eq!(SurfaceOption::Rocky.to_string(), "Rocky");
    assert_eq!(SurfaceOption::Gaseous.to_string(), "Gaseous");
    assert_eq!(SurfaceOption::Both.to_string(), "Both");
    for o in [SurfaceOption::Rocky, SurfaceOption::Gaseous, SurfaceOption::Both] {
        assert_eq!(to_surface_option(&o.to_string()), o);
    }
    assert_eq!(to_surface_option(""), SurfaceOption::Both);
    assert_eq!(to_surface_option("rocky"), SurfaceOption::Both);
    assert_eq!(to_surface_option("Rocky "), SurfaceOption::Both);
}

#[test]
fn environment_options_are_named_and_read() {
    assert_eq!(EnvironmentOption::Low.to_string(), "Low");
    assert_eq!(EnvironmentOption::Normal.to_string(), "Normal");
    assert_eq!(EnvironmentOption::High.to_string(), "High");
    assert_eq!(EnvironmentOption::Ignore.to_string(), "Ignore");
    for o in [
        EnvironmentOption::Low,
        EnvironmentOption::Normal,
        EnvironmentOption::High,
        EnvironmentOption::Ignore,
    ] {
        assert_eq!(to_env_option(&o.to_string()), o);
    }
    assert_eq!(to_env_option(""), EnvironmentOption::Ignore);
    assert_eq!(to_env_option("low"), EnvironmentOption::Ignore);
    assert_eq!(to_env_option("Norma"), EnvironmentOption::Ignore);
}

#[test]
fn new_filters_ask_for_normal_rocky_planets() {
    let f = Filters::new();
    assert!(f.env_filter);
    assert!(f.inc_normal);
    assert_eq!(f.surface, SurfaceOption::Rocky);
    assert_eq!(f.gravity, EnvironmentOption::Normal);
    assert_eq!(f.temp, EnvironmentOption::Normal);
    assert_eq!(f.pressure, EnvironmentOption::Normal);
    assert_eq!(f.selected_resource_ticker, None);
}

#[test]
fn new_map_frame_has_its_size_and_offset() {
    let m = MapFrame::new();
    assert_eq!(m.width, fx(1700.0));
    assert_eq!(m.height, fx(1700.0));
    assert_eq!(m.offset_x, fx(1400.0));
    assert_eq!(m.offset_y, fx(1700.0));
    assert!(m.show_cx);
    assert!(!m.show_path);
}

#[test]
fn new_map_features_offer_three_scales() {
    let m = MapFeatures::new();
    assert_eq!(
        m.scale_options,
        vec![
            ("Small".to_string(), (fx(0.3), false)),
            ("Medium".to_string(), (fx(0.35), true)),
            ("Large".to_string(), (fx(0.4), false)),
        ]
    );
    assert_eq!(m.selected_scale, fx(0.35));
    assert!(m.show_cx);
    assert!(!m.show_routes);
}

#[test]
fn selected_scale_is_set() {
    let mut m = MapFeatures::new();
    let before = MapFeatures::new();
    m.set_selected_scale(fx(0.4));
    assert_eq!(m.selected_scale, fx(0.4));
    assert_eq!(m.scale_options, before.scale_options);
    assert_eq!((m.show_cx, m.show_routes), (before.show_cx, before.show_routes));
}

#[test]
fn pointer_is_carried_to_the_map() {
    // (350 - 0) / 0.35 - 1400 = -400
    assert_eq!(world_coordinate(fx(350.0), 0, fx(0.35), fx(1400.0)), Some(fx(-400.0)));
    // (110 - 10) / 0.5 - 20 = 180
    assert_eq!(world_coordinate(fx(110.0), fx(10.0), fx(0.5), fx(20.0)), Some(fx(180.0)));
    // (10 - 110) / 0.5 - 20 = -220
    assert_eq!(world_coordinate(fx(10.0), fx(110.0), fx(0.5), fx(20.0)), Some(fx(-220.0)));
    // 1 / 3 rounds down, also below zero
    assert_eq!(world_coordinate(fx(1.0), 0, fx(3.0), 0), Some(333_333));
    assert_eq!(world_coordinate(fx(-1.0), 0, fx(3.0), 0), Some(-333_334));
    assert_eq!(world_coordinate(1, 0, fx(3.0), 0), Some(0));
    assert_eq!(world_coordinate(-1, 0, fx(3.0), 0), Some(-1));
    assert_eq!(world_coordinate(2, 0, fx(1.0), 0), Some(2));
    assert_eq!(world_coordinate(-3, 0, fx(2.0), 0), Some(-2));
    assert_eq!(world_coordinate(-4, 0, fx(2.0), 0), Some(-2));
}

#[test]
fn pointer_has_no_place_without_a_positive_scale() {
    assert_eq!(world_coordinate(fx(350.0), 0, 0, fx(1400.0)), None);
    assert_eq!(world_coordinate(fx(350.0), 0, -1, fx(1400.0)), None);
    assert_eq!(world_coordinate(fx(350.0), 0, i64::MIN, fx(1400.0)), None);
    assert_eq!(screen_coordinate(fx(350.0), 0, 0, fx(1400.0)), None);
    assert_eq!(screen_coordinate(fx(350.0), 0, -5, fx(1400.0)), None);
}

#[test]
fn pointer_out_of_range_has_no_place() {
    assert_eq!(world_coordinate(i64::MAX, i64::MIN, 1, 0), None);
    assert_eq!(world_coordinate(i64::MAX, 0, fx(0.5), 0), None);
    assert_eq!(world_coordinate(i64::MAX, 0, fx(1.0), 0), Some(i64::MAX));
    assert_eq!(world_coordinate(i64::MAX, 0, fx(1.0), -1), None);
    assert_eq!(world_coordinate(i64::MIN, 0, fx(1.0), 0), Some(i64::MIN));
    assert_eq!(world_coordinate(i64::MIN, 0, fx(1.0), 1), None);
    // -(2^64 - 1) / (2^63 - 1) is just below -2, and rounds down to -2.000001
    assert_eq!(world_coordinate(i64::MIN, i64::MAX, i64::MAX, i64::MIN), Some(i64::MAX - 2_000_000));
    assert_eq!(screen_coordinate(i64::MAX, 0, fx(2.0), 0), None);
    assert_eq!(screen_coordinate(i64::MAX, 0, fx(1.0), 0), Some(i64::MAX));
    assert_eq!(screen_coordinate(i64::MIN, i64::MIN, i64::MAX, i64::MIN), None);
    assert_eq!(screen_coordinate(i64::MAX, 1, fx(1.0), 0), None);
}

#[test]
fn point_is_drawn_on_the_screen() {
    // (-400 + 1400) * 0.35 + 0 = 350
    assert_eq!(screen_coordinate(fx(-400.0), 0, fx(0.35), fx(1400.0)), Some(fx(350.0)));
    // (180 + 20) * 0.5 + 10 = 110
    assert_eq!(screen_coordinate(fx(180.0), fx(10.0), fx(0.5), fx(20.0)), Some(fx(110.0)));
    assert_eq!(screen_coordinate(3, 0, fx(0.5), 0), Some(1));
    assert_eq!(screen_coordinate(-3, 0, fx(0.5), 0), Some(-2));
}

#[test]
fn pointer_comes_back_to_where_it_was() {
    for scale in [fx(0.3), fx(0.35), fx(0.4), fx(1.0), fx(2.5), 1, 7] {
        for pointer in [0, 1, -1, 12_345_678, -987_654_321, fx(849.5), fx(1700.0)] {
            let origin = fx(8.0);
            let offset = fx(1400.0);
            let world = world_coordinate(pointer, origin, scale, offset).unwrap();
            let back = screen_coordinate(world, origin, scale, offset).unwrap();
            assert!(back <= pointer, "{} {} {}", scale, pointer, back);
            assert!(back >= pointer - scale / 1_000_000 - 1, "{} {} {}", scale, pointer, back);
        }
    }
}

#[test]
fn point_comes_back_to_where_it_was() {
    for scale in [fx(0.3), fx(0.35), fx(0.4), fx(1.0), fx(2.5), 1, 7] {
        for world in [0, 1, -1, 12_345_678, -987_654_321, fx(-400.0), fx(300.0)] {
            let origin = fx(8.0);
            let offset = fx(1400.0);
            let pointer = screen_coordinate(world, origin, scale, offset).unwrap();
            let back = world_coordinate(pointer, origin, scale, offset).unwrap();
            assert!(back <= world, "{} {} {}", scale, world, back);
            assert!(back >= world - 1_000_000 / scale - 1, "{} {} {}", scale, world, back);
        }
    }
}

#[test]
fn map_frame_carries_both_coordinates() {
    let m = MapFrame::new();
    let at = m.to_world(fx(0.35), fx(350.0), fx(700.0), 0, fx(105.0));
    assert_eq!(at, Some((fx(-400.0), fx(0.0))));
    assert_eq!(m.to_world(0, fx(350.0), fx(700.0), 0, 0), None);
    assert_eq!(m.to_world(1, i64::MAX, 0, 0, 0), None);
    assert_eq!(m.to_world(1, 0, i64::MAX, 0, 0), None);
    let other = MapFrame { offset_x: fx(10.0), offset_y: fx(-10.0), ..m };
    assert_eq!(other.to_world(fx(1.0), fx(5.0), fx(5.0), 0, 0), Some((fx(-5.0), fx(15.0))));
}

#[test]
fn concentration_bands_start_at_two_thirds_and_one_third() {
    assert_eq!(concentration_band(fx(0.66), fx(1.0)), Band::High);
    assert_eq!(concentration_band(fx(0.66) - 1, fx(1.0)), Band::Medium);
    assert_eq!(concentration_band(fx(0.33), fx(1.0)), Band::Medium);
    assert_eq!(concentration_band(fx(0.33) - 1, fx(1.0)), Band::Low);
    assert_eq!(concentration_band(fx(1.0), fx(1.0)), Band::High);
    assert_eq!(concentration_band(0, fx(1.0)), Band::Low);
    assert_eq!(concentration_band(fx(0.4), fx(0.8)), Band::Medium);
    assert_eq!(concentration_band(fx(0.6), fx(0.8)), Band::High);
    assert_eq!(concentration_band(fx(0.2), fx(0.8)), Band::Low);
    assert_eq!(concentration_band(33, 100), Band::Medium);
    assert_eq!(concentration_band(66, 100), Band::High);
    assert_eq!(concentration_band(i64::MAX, i64::MAX), Band::High);
    assert_eq!(concentration_band(i64::MAX / 2, i64::MAX), Band::Medium);
}

#[test]
fn concentration_in_nothing_is_high_or_low() {
    assert_eq!(concentration_band(1, 0), Band::High);
    assert_eq!(concentration_band(0, 0), Band::Low);
    assert_eq!(concentration_band(-1, 0), Band::Low);
    assert_eq!(concentration_band(-66, -100), Band::High);
    assert_eq!(concentration_band(-65, -100), Band::Medium);
    assert_eq!(concentration_band(-32, -100), Band::Low);
    assert_eq!(concentration_band(1, -100), Band::Low);
    assert_eq!(concentration_band(i64::MIN, i64::MIN), Band::High);
    for (f, m) in [(5.0, 7.0), (1.0, 3.0), (2.0, 3.0), (-1.0, 3.0), (1.0, 0.0), (0.0, 0.0), (-2.0, -3.0), (-1.0, -3.0)] {
        let conc: f64 = f / m;
        let expected = if conc >= 0.66 {
            Band::High
        } else if conc >= 0.33 {
            Band::Medium
        } else {
            Band::Low
        };
        assert_eq!(concentration_band(fx(f), fx(m)), expected, "{} / {}", f, m);
    }
}

#[test]
fn star_markers_follow_what_was_found() {
    assert_eq!(star_marker(0, Some(fx(1.0)), true), Marker::Pinpoint);
    assert_eq!(star_marker(0, None, true), Marker::Pinpoint);
    assert_eq!(star_marker(-1, None, true), Marker::Pinpoint);
    assert_eq!(star_marker(fx(1.0), None, true), Marker::Fitting);
    assert_eq!(star_marker(fx(1.0), None, false), Marker::Pinpoint);
    assert_eq!(star_marker(fx(0.8), Some(fx(0.8)), false), Marker::Rated(Band::High));
    assert_eq!(star_marker(fx(0.3), Some(fx(0.8)), true), Marker::Rated(Band::Medium));
    assert_eq!(star_marker(fx(0.1), Some(fx(0.8)), true), Marker::Rated(Band::Low));
}
