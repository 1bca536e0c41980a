//! End-to-end: the real ephemeris feeds the verified pipeline.

use astro::{lunar, planet, pluto, sun, time};

use hd_cli::astro_time::calc_julian_day;
use hd_cli::chart::{assemble_longitudes, build_chart};
use hd_cli::database::HdDatabase;
use hd_cli::solver::{design_guess, design_target, solver_advance, TOLERANCE_MAS};

fn norm_deg(d: f64) -> f64 {
    let mut x = d % 360.0;
    if x < 0.0 {
        x += 360.0;
    }
    x
}

fn to_mas(deg: f64) -> i64 {
    ((norm_deg(deg) * 3_600_000.0).round() as i64) % 1_296_000_000
}

fn jd_of(t: i64) -> f64 {
    t as f64 / 86_400_000.0
}

fn sun_lng_mas(jd: f64) -> i64 {
    let (ecl, _) = sun::geocent_ecl_pos(jd);
    to_mas(ecl.long.to_degrees())
}

fn positions_mas(jd: f64) -> Vec<i64> {
    let (earth_l, earth_b, earth_r) = planet::heliocent_coords(&planet::Planet::Earth, jd);
    let sun_mas = sun_lng_mas(jd);
    let (moon_ecl, _) = lunar::geocent_ecl_pos(jd);
    let moon_mas = to_mas(moon_ecl.long.to_degrees());
    let node_mas = to_mas(lunar::mn_ascend_node(time::julian_cent(jd)).to_degrees());
    let body = |p: planet::Planet| -> i64 {
        let (l, b, r) = planet::heliocent_coords(&p, jd);
        let (lng, _lat, _dist, _lt) =
            planet::geocent_geomet_ecl_coords(earth_l, earth_b, earth_r, l, b, r);
        to_mas(lng.to_degrees())
    };
    let mercury = body(planet::Planet::Mercury);
    let venus = body(planet::Planet::Venus);
    let mars = body(planet::Planet::Mars);
    let jupiter = body(planet::Planet::Jupiter);
    let saturn = body(planet::Planet::Saturn);
    let uranus = body(planet::Planet::Uranus);
    let neptune = body(planet::Planet::Neptune);
    let (pl, pb, pr) = pluto::heliocent_pos(jd);
    let (plng, _plat, _pdist, _plt) =
        planet::geocent_geomet_ecl_coords(earth_l, earth_b, earth_r, pl, pb, pr);
    let pluto_mas = to_mas(plng.to_degrees());
    assemble_longitudes(
        sun_mas, moon_mas, node_mas, mercury, venus, mars, jupiter, saturn, uranus, neptune,
        pluto_mas,
    )
}

fn solve_design_time(birth_t: i64, birth_sun_mas: i64) -> i64 {
    let target = design_target(birth_sun_mas);
    let mut t = birth_t;
    let mut est = design_guess(birth_t);
    for _ in 0..50 {
        let cur = sun_lng_mas(jd_of(est));
        let (done, next) = solver_advance(est, target, cur);
        t = next;
        if done {
            break;
        }
        est = next;
    }
    t
}

#[test]
fn design_solver_converges_on_the_ephemeris() {
    let birth_t = calc_julian_day(1990, 5, 15, 14, 30, 180);
    let pers = positions_mas(jd_of(birth_t));
    let target = design_target(pers[0]);
    let design_t = solve_design_time(birth_t, pers[0]);
    let sun_at_design = sun_lng_mas(jd_of(design_t));
    let delta = hd_cli::angle::signed_delta(target, sun_at_design);
    assert!(delta.abs() < TOLERANCE_MAS, "solver left {} mas of error", delta);
    // The design moment lies roughly 88 days before birth.
    let back_days = (birth_t - design_t) as f64 / 86_400_000.0;
    assert!(85.0 < back_days && back_days < 93.0, "design {} days back", back_days);
}

#[test]
fn chart_is_reproducible_bit_for_bit() {
    let db = HdDatabase::empty();
    let birth_t = calc_julian_day(1990, 5, 15, 14, 30, 180);
    let pers = positions_mas(jd_of(birth_t));
    let design_t = solve_design_time(birth_t, pers[0]);
    let des = positions_mas(jd_of(design_t));
    let a = build_chart(1990, 5, 15, 14, 30, 180, true, &db, &pers, &des);
    let b = build_chart(1990, 5, 15, 14, 30, 180, true, &db, &pers, &des);
    assert_eq!(a.hd_type, b.hd_type);
    assert_eq!(a.authority, b.authority);
    assert_eq!(a.profile, b.profile);
    assert_eq!(a.incarnation_cross, b.incarnation_cross);
    assert_eq!(a.channels.len(), b.channels.len());
    for (x, y) in a.personality.iter().zip(b.personality.iter()) {
        assert_eq!(x.lng_mas, y.lng_mas);
        assert_eq!(x.gate, y.gate);
        assert_eq!(x.line, y.line);
    }
}

#[test]
fn golden_chart_1990_05_15() {
    let db = HdDatabase::empty();
    let birth_t = calc_julian_day(1990, 5, 15, 14, 30, 180);
    let pers = positions_mas(jd_of(birth_t));
    let design_t = solve_design_time(birth_t, pers[0]);
    let des = positions_mas(jd_of(design_t));
    let chart = build_chart(1990, 5, 15, 14, 30, 180, true, &db, &pers, &des);
    let channel_keys: Vec<String> = chart.channels.iter().map(|c| c.key.clone()).collect();
    assert_eq!(chart.hd_type, "projector");
    assert_eq!(chart.authority, "emotional");
    assert_eq!(chart.profile, "6/3");
    assert_eq!(chart.incarnation_cross, "left_angle (23/43 | 30/29)");
    assert_eq!(chart.personality[0].gate, 23);
    assert_eq!(chart.personality[0].line, 6);
    assert_eq!(chart.design[0].gate, 30);
    assert_eq!(channel_keys, vec!["24-61", "23-43", "13-33", "30-41"]);
}
