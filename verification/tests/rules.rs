use bracket_lib::prelude::RandomNumberGenerator;
use flappy_dragon::journey::{
    city_cell, city_scene, CityCell, oort_particle, phase_label, score_box_x, score_text_len, stage_for, window_lit,
    Backdrop, Stage,
};
use flappy_dragon::obstacle::{Obstacle, PipeLayout};
use flappy_dragon::player::Player;
use flappy_dragon::sky::{sky_bg_color_at, sky_bodies, Rgb8, SkyBody, SKY_PHASE_US, SKY_TOTAL_US};
use flappy_dragon::weather::{
    cloud_pixel, cloud_style, cloud_target, drift_clouds, next_weather_from_roll, rains, Cloud,
    CloudPixel,
};
use flappy_dragon::space::{
    disc_half_width, earth_cell, earth_pixel, earth_radius, jupiter_band, jupiter_pixel,
    planet_pixel, saturn_pixel, solar_scene, sun_pixel, EarthCell, EarthPixel, JupiterPixel, Placed,
    PlanetPixel, SaturnPixel, SunPixel,
};
use flappy_dragon::{frame_duration_for, gap_size_for, set_handler, Error, Signal};

#[test]
fn frame_duration_drops_half_a_millisecond_per_pipe() {
    assert_eq!(frame_duration_for(10, false), 70_000);
    assert_eq!(frame_duration_for(69, false), 40_500);
    assert_eq!(frame_duration_for(1000, false), 40_000);
}

#[test]
fn gap_size_floors_and_negative_scores() {
    assert_eq!(gap_size_for(120, false), 4);
    assert_eq!(gap_size_for(5000, false), 4);
    assert_eq!(gap_size_for(-5, true), 25);
    assert_eq!(gap_size_for(-19, false), 16);
    assert_eq!(gap_size_for(-20, false), 18);
}

#[test]
fn gravity_accelerates_to_two_cells() {
    let mut p = Player::new(5, 25);
    p.gravity_and_move(2);
    assert_eq!(p, Player { x: 7, y: 25, velocity: 1 });
    p.gravity_and_move(2);
    assert_eq!(p, Player { x: 9, y: 26, velocity: 2 });
    p.gravity_and_move(2);
    p.gravity_and_move(2);
    assert_eq!(p.velocity, 4);
    p.gravity_and_move(2);
    assert_eq!(p.velocity, 4);
    assert_eq!(p.y, 26 + 1 + 2 + 2);
}

#[test]
fn flap_lifts_and_top_row_holds() {
    let mut p = Player { x: 0, y: 1, velocity: 3 };
    p.flap();
    assert_eq!(p.velocity, -6);
    p.gravity_and_move(2);
    assert_eq!(p, Player { x: 2, y: 0, velocity: -5 });
}

#[test]
fn pipe_gap_edges_are_safe() {
    let obs = Obstacle { x: 10, gap_y: 25, size: 10, classic_mode: false };
    assert!(!obs.hit_obstacle(&Player { x: 10, y: 20, velocity: 0 }));
    assert!(!obs.hit_obstacle(&Player { x: 10, y: 30, velocity: 0 }));
    assert!(obs.hit_obstacle(&Player { x: 11, y: 19, velocity: 0 }));
    assert!(obs.hit_obstacle(&Player { x: 11, y: 31, velocity: 0 }));
    assert!(!obs.hit_obstacle(&Player { x: 9, y: 0, velocity: 0 }));
}

#[test]
fn new_pipes_draw_their_gap_at_random() {
    let mut rng = RandomNumberGenerator::new();
    let mut seen_other = false;
    for _ in 0..200 {
        let o = Obstacle::new(100, 20, false, &mut rng);
        assert_eq!(o.x, 100);
        assert_eq!(o.size, 14);
        assert!(!o.classic_mode);
        assert!(o.gap_y >= 10 && o.gap_y < 40);
        if o.gap_y != 10 {
            seen_other = true;
        }
    }
    assert!(seen_other);
}

#[test]
fn pipe_layouts() {
    let obs = Obstacle::with_gap(20, 10, true, 25);
    assert_eq!(obs.size, 10);
    assert_eq!(
        obs.layout(10, true),
        PipeLayout {
            column: 13,
            second_column: false,
            top_body_end: 20,
            top_cap: None,
            bottom_cap: None,
            bottom_body_start: 30,
        }
    );
    let obs = Obstacle { x: 90, gap_y: 12, size: 16, classic_mode: false };
    assert_eq!(
        obs.layout(10, false),
        PipeLayout {
            column: 83,
            second_column: false,
            top_body_end: 3,
            top_cap: Some(3),
            bottom_cap: Some(20),
            bottom_body_start: 21,
        }
    );
    let obs = Obstacle { x: 10, gap_y: 46, size: 8, classic_mode: false };
    let l = obs.layout(10, false);
    assert_eq!(l.column, 3);
    assert!(l.second_column);
    assert_eq!(l.bottom_cap, None);
    assert_eq!(l.bottom_body_start, 51);
    let obs = Obstacle { x: 10, gap_y: 0, size: 0, classic_mode: false };
    assert_eq!(obs.layout(10, false).top_cap, None);
}

#[test]
fn sky_blends_between_phases() {
    assert_eq!(sky_bg_color_at(SKY_PHASE_US / 2), Rgb8 { r: 255, g: 155, b: 85 });
    assert_eq!(sky_bg_color_at(SKY_PHASE_US * 2), Rgb8 { r: 80, g: 160, b: 255 });
    // night blends back into dawn
    assert_eq!(
        sky_bg_color_at(SKY_TOTAL_US - SKY_PHASE_US / 2),
        Rgb8 { r: 132, g: 55, b: 52 }
    );
    assert_eq!(sky_bg_color_at(3 * SKY_TOTAL_US + 7), sky_bg_color_at(7));
}

#[test]
fn sun_moon_and_stars() {
    let dawn = sky_bodies(0, 0);
    assert_eq!(dawn.stars, Some(200));
    assert_eq!(dawn.sun, Some(SkyBody { x: 5, dimmed: false }));
    assert_eq!(dawn.moon, Some(SkyBody { x: 39, dimmed: false }));
    let noon = sky_bodies(SKY_PHASE_US * 2 + SKY_PHASE_US / 2, 2);
    assert_eq!(noon.stars, None);
    assert_eq!(noon.sun, Some(SkyBody { x: 39, dimmed: true }));
    assert_eq!(noon.moon, None);
    let night = sky_bodies(SKY_PHASE_US * 5, 1);
    assert_eq!(night.sun, None);
    assert_eq!(night.moon, Some(SkyBody { x: 5, dimmed: false }));
    assert_eq!(night.stars, Some(200));
    let overcast = sky_bodies(SKY_PHASE_US * 5, 3);
    assert_eq!(overcast.moon, None);
    // late in dusk the stars fade in
    let dusk = sky_bodies(SKY_PHASE_US * 4 + SKY_PHASE_US / 2, 0);
    assert_eq!(dusk.stars, Some(100));
    // early in dusk they are too faint to draw
    let early_dusk = sky_bodies(SKY_PHASE_US * 4 + SKY_PHASE_US / 40, 0);
    assert_eq!(early_dusk.stars, None);
}

#[test]
fn weather_chain_from_rolls() {
    assert_eq!(next_weather_from_roll(0, 6), 1);
    assert_eq!(next_weather_from_roll(0, 7), 0);
    assert_eq!(next_weather_from_roll(1, 3), 0);
    assert_eq!(next_weather_from_roll(1, 6), 1);
    assert_eq!(next_weather_from_roll(1, 9), 2);
    assert_eq!(next_weather_from_roll(2, 2), 1);
    assert_eq!(next_weather_from_roll(2, 5), 2);
    assert_eq!(next_weather_from_roll(2, 6), 3);
    assert_eq!(next_weather_from_roll(3, 3), 2);
    assert_eq!(next_weather_from_roll(3, 4), 3);
    assert_eq!(next_weather_from_roll(3, 8), 4);
    assert_eq!(next_weather_from_roll(4, 5), 3);
    assert_eq!(next_weather_from_roll(4, 6), 2);
    assert_eq!(next_weather_from_roll(9, 0), 0);
}

#[test]
fn cloud_targets_and_styles() {
    assert_eq!(cloud_target(0), 0);
    assert_eq!(cloud_target(1), 3);
    assert_eq!(cloud_target(2), 6);
    assert_eq!(cloud_target(3), 10);
    assert_eq!(cloud_target(4), 8);
    assert_eq!(cloud_style(0), None);
    assert_eq!(cloud_style(4).map(|s| s.glyph), Some(219));
    assert_eq!(cloud_style(1).map(|s| s.color), Some(Rgb8 { r: 220, g: 220, b: 220 }));
    assert!(rains(4));
    assert!(!rains(3));
}

#[test]
fn clouds_drift_and_leave() {
    let entering = Cloud::spawned(5, 8, 3);
    assert_eq!(entering, Cloud { x: 86_000_000, y: 5, width: 8 });
    let clouds = vec![
        Cloud { x: 10_000_000, y: 4, width: 4 },
        Cloud { x: -3_000_000, y: 6, width: 4 },
        entering,
    ];
    let kept = drift_clouds(&clouds, 1_000_000);
    assert_eq!(
        kept,
        vec![Cloud { x: 7_000_000, y: 4, width: 4 }, Cloud { x: 83_000_000, y: 5, width: 8 }]
    );
    assert_eq!(kept[0].screen_x(), 7);
    assert_eq!(Cloud { x: -1_500_000, y: 4, width: 5 }.screen_x(), -1);
    assert_eq!(Cloud { x: -1_500_000, y: 4, width: 5 }.visible_columns(), (0, 4));
    assert_eq!(kept[1].visible_columns(), (83, 83));
    assert_eq!(Cloud { x: 80_000_000, y: 4, width: 5 }.visible_columns(), (80, 83));
}

#[test]
fn journey_stages_and_labels() {
    assert_eq!(stage_for(0), Stage { backdrop: Backdrop::City, progress: 0, span: 25 });
    assert_eq!(stage_for(60), Stage { backdrop: Backdrop::HighSky, progress: 35, span: 75 });
    assert_eq!(stage_for(150), Stage { backdrop: Backdrop::Atmosphere, progress: 50, span: 100 });
    assert_eq!(stage_for(250), Stage { backdrop: Backdrop::EarthOrbit, progress: 50, span: 100 });
    assert_eq!(stage_for(800), Stage { backdrop: Backdrop::SolarSystem, progress: 500, span: 1000 });
    assert_eq!(stage_for(1400), Stage { backdrop: Backdrop::OortCloud, progress: 100, span: 100 });
    assert_eq!(phase_label(0), "Ciudad");
    assert_eq!(phase_label(99), "Estratosfera");
    assert_eq!(phase_label(100), "Atmosfera");
    assert_eq!(phase_label(299), "Orbita");
    assert_eq!(phase_label(300), "Marte");
    assert_eq!(phase_label(450), "Jupiter");
    assert_eq!(phase_label(700), "Saturno");
    assert_eq!(phase_label(1000), "Urano");
    assert_eq!(phase_label(1100), "Neptuno");
    assert_eq!(phase_label(1250), "Pluton");
    assert_eq!(phase_label(1300), "Nube de Oort");
}

#[test]
fn city_skyline_sinks() {
    let start = city_scene(0, 0);
    assert_eq!(start.horizon_y, 38);
    assert_eq!(start.buildings.len(), 15);
    assert_eq!((start.buildings[0].x, start.buildings[0].width, start.buildings[0].top_y), (0, 6, 30));
    assert_eq!(start.buildings[11].top_y, 38 - 13);
    let later = city_scene(10, 0);
    assert_eq!(later.horizon_y, 44);
    // 85% of 16 rows scaled by 0.54: 7 rows
    assert_eq!(later.buildings[11].top_y, 44 - 7);
    let gone = city_scene(24, 0);
    assert_eq!(gone.horizon_y, 52);
    assert!(gone.buildings.is_empty());
    assert!(!window_lit(0, 1, 1));
    assert!(window_lit(0, 2, 1));
}

#[test]
fn signal_handler_always_installs() {
    assert!(set_handler(|| {}).is_ok());
    assert_eq!(Error::MultipleHandlers.message(), "ctrlc error");
    let _ = Signal::clone;
}

#[test]
fn score_box_fits_the_digits() {
    assert_eq!(score_text_len(0), 1);
    assert_eq!(score_text_len(9), 1);
    assert_eq!(score_text_len(10), 2);
    assert_eq!(score_text_len(1399), 4);
    assert_eq!(score_text_len(-5), 2);
    assert_eq!(score_text_len(i32::MAX), 10);
    assert_eq!(score_text_len(i32::MIN), 11);
    assert_eq!(score_box_x(5), 78);
    assert_eq!(score_box_x(1400), 75);
}

#[test]
fn oort_particles_scatter() {
    assert_eq!(oort_particle(0), (0, 0, 40));
    assert_eq!(oort_particle(1), (20, 18, 71));
    assert_eq!(oort_particle(10), ((170 + 300) % 83, (110 + 700) % 50, (310 % 80 + 40) as u8));
}

#[test]
fn solar_system_places_the_planets() {
    let start = solar_scene(0);
    assert_eq!(start.sun, Placed { x: 72, r: 6, label: false });
    assert_eq!(start.mars, Some(Placed { x: 75, r: 4, label: true }));
    assert_eq!(start.jupiter, None);
    assert_eq!(start.pluto, None);
    let s = solar_scene(100);
    assert_eq!(s.sun, Placed { x: 69, r: 5, label: false });
    assert_eq!(s.mars, Some(Placed { x: 5, r: 2, label: false }));
    assert_eq!(s.jupiter, Some(Placed { x: 73, r: 9, label: true }));
    assert_eq!(solar_scene(120).mars, None);
    let late = solar_scene(900);
    assert_eq!(late.pluto, Some(Placed { x: 55, r: 0, label: true }));
    assert_eq!(late.neptune, Some(Placed { x: -3, r: 2, label: false }));
    assert_eq!(late.saturn, None);
}

#[test]
fn earth_and_discs() {
    assert_eq!(earth_radius(0), 13);
    assert_eq!(earth_radius(50), 6);
    assert_eq!(earth_radius(100), 0);
    assert_eq!(disc_half_width(5, 0), 5);
    assert_eq!(disc_half_width(5, 3), 4);
    assert_eq!(disc_half_width(5, 4), 3);
    assert_eq!(disc_half_width(5, 5), 0);
    assert_eq!(disc_half_width(5, 6), 0);
    assert_eq!(disc_half_width(13, 12), 5);
    assert_eq!(disc_half_width(13, 11), 6);
    assert_eq!(earth_cell(13, 62, 0, -13, 0), EarthCell::Ice);
    assert_eq!(earth_cell(13, 62, 10, 0, 13), EarthCell::Shade);
    assert_eq!(earth_cell(13, 62, 0, 0, 13), EarthCell::Ocean);
    assert_eq!(earth_cell(13, 62, 3, 0, 13), EarthCell::Land);
    assert_eq!(jupiter_band(10, -10), 0);
    assert_eq!(jupiter_band(10, 0), 2);
    assert_eq!(jupiter_band(10, 10), 4);
}

#[test]
fn city_cells() {
    let scene = city_scene(0, 0);
    assert_eq!(scene.sky, sky_bg_color_at(0));
    // building 0: columns 0..6, top row 30, horizon 38
    assert_eq!(city_cell(&scene, 0, 30), Some(CityCell::Roof));
    assert_eq!(city_cell(&scene, 0, 31), Some(CityCell::Edge));
    assert_eq!(city_cell(&scene, 5, 33), Some(CityCell::Edge));
    assert_eq!(city_cell(&scene, 1, 31), Some(CityCell::Window { lit: window_lit(0, 1, 31) }));
    assert_eq!(city_cell(&scene, 2, 31), Some(CityCell::Wall));
    assert_eq!(city_cell(&scene, 1, 32), Some(CityCell::Wall));
    assert_eq!(city_cell(&scene, 1, 37), Some(CityCell::Wall));
    assert_eq!(city_cell(&scene, 1, 29), None);
    assert_eq!(city_cell(&scene, 10, 38), Some(CityCell::HorizonLine));
    assert_eq!(city_cell(&scene, 10, 49), Some(CityCell::Ground));
    assert_eq!(city_cell(&scene, 10, 50), None);
    assert_eq!(city_cell(&scene, 83, 40), None);
    assert_eq!(city_cell(&scene, -1, 40), None);
    // from 22 pipes on only the sky and the ground remain
    let late = city_scene(22, 0);
    assert!(late.buildings.is_empty());
    for y in 0..50 {
        for x in 0..83 {
            let c = city_cell(&late, x, y);
            assert_eq!(c.is_some(), y >= late.horizon_y);
        }
    }
    // a horizon below the screen leaves no ground drawn
    let low = city_scene(24, 0);
    assert_eq!(low.horizon_y, 52);
    assert_eq!(city_cell(&low, 0, 49), None);
}

#[test]
fn disc_pixels() {
    // the Earth of radius 3 at (10, 10): surface within the radius, a glow ring just outside
    for y in -5..60 {
        for x in -5..90 {
            if let Some(p) = earth_pixel(3, 10, 10, x, y) {
                assert!((0..83).contains(&x) && (0..50).contains(&y));
                let d2 = (x - 10) * (x - 10) + (y - 10) * (y - 10);
                assert!(d2 <= 16);
                match p {
                    EarthPixel::Glow => assert!(d2 > 9),
                    EarthPixel::Surface(_) => assert!(d2 <= 9),
                }
            }
        }
    }
    assert_eq!(earth_pixel(3, 10, 10, 14, 10), Some(EarthPixel::Glow));
    assert_eq!(earth_pixel(3, 10, 10, 10, 14), Some(EarthPixel::Glow));
    assert_eq!(earth_pixel(0, 10, 10, 10, 10), None);
    assert_eq!(earth_pixel(3, 0, 0, 0, 0), Some(EarthPixel::Surface(earth_cell(3, 0, 0, 0, 3))));
    // Jupiter: the Red Spot only on a planet wider than 5
    assert_eq!(jupiter_pixel(6, 40, 20, 38, 21), Some(JupiterPixel::Spot));
    assert_eq!(jupiter_pixel(5, 40, 20, 39, 21), Some(JupiterPixel::Band { band: 2, shaded: false }));
    assert_eq!(jupiter_pixel(5, 40, 20, 44, 20), Some(JupiterPixel::Band { band: 2, shaded: true }));
    assert_eq!(jupiter_pixel(5, 40, 20, 46, 20), None);
    assert_eq!(jupiter_pixel(6, 0, 0, -2, 1), None);
    // sun: core, rim and corona
    assert_eq!(sun_pixel(3, 40, 20, 40, 20), Some(SunPixel::Core));
    assert_eq!(sun_pixel(3, 40, 20, 43, 20), Some(SunPixel::Outer));
    assert_eq!(sun_pixel(3, 40, 20, 45, 20), Some(SunPixel::Corona));
    assert_eq!(sun_pixel(3, 40, 20, 46, 20), None);
    // Saturn: rings two cells beyond the radius up to three radii, on two rows
    assert_eq!(saturn_pixel(3, 40, 20, 40, 20), Some(SaturnPixel::Body { shaded: false }));
    assert_eq!(saturn_pixel(3, 40, 20, 43, 20), Some(SaturnPixel::Body { shaded: true }));
    assert_eq!(saturn_pixel(3, 40, 20, 44, 20), None);
    assert_eq!(saturn_pixel(3, 40, 20, 45, 19), Some(SaturnPixel::Ring { dark: false }));
    assert_eq!(saturn_pixel(3, 40, 20, 34, 20), Some(SaturnPixel::Ring { dark: true }));
    assert_eq!(saturn_pixel(3, 40, 20, 31, 20), None);
    assert_eq!(saturn_pixel(3, 40, 20, 45, 21), None);
    // a plain planet is shaded on the right of each row
    assert_eq!(planet_pixel(4, 40, 20, 42, 20), Some(PlanetPixel::Lit));
    assert_eq!(planet_pixel(4, 40, 20, 43, 20), Some(PlanetPixel::Shaded));
    assert_eq!(planet_pixel(4, 40, 20, 45, 20), None);
    assert_eq!(planet_pixel(-1, 40, 20, 40, 20), None);
}

#[test]
fn hit_test_needs_no_spare_rows() {
    let obs = Obstacle { x: 10, gap_y: i32::MAX - 1, size: 2, classic_mode: true };
    assert!(obs.hit_obstacle(&Player { x: 10, y: 0, velocity: 0 }));
    assert!(!obs.hit_obstacle(&Player { x: 10, y: i32::MAX, velocity: 0 }));
}

#[test]
fn cloud_cells_and_rain() {
    let clouds = vec![
        Cloud { x: 10_000_000, y: 5, width: 5 },
        Cloud { x: -1_500_000, y: 3, width: 4 },
    ];
    assert_eq!(cloud_pixel(&clouds, 1, 10, 5), Some(CloudPixel::Body));
    assert_eq!(cloud_pixel(&clouds, 1, 14, 6), Some(CloudPixel::Body));
    assert_eq!(cloud_pixel(&clouds, 1, 15, 5), None);
    assert_eq!(cloud_pixel(&clouds, 1, 10, 7), None);
    assert_eq!(cloud_pixel(&clouds, 0, 10, 5), None);
    // in a storm it rains on every other column, two to nine rows below
    assert_eq!(cloud_pixel(&clouds, 4, 10, 7), Some(CloudPixel::Rain));
    assert_eq!(cloud_pixel(&clouds, 4, 11, 7), None);
    assert_eq!(cloud_pixel(&clouds, 4, 12, 14), Some(CloudPixel::Rain));
    assert_eq!(cloud_pixel(&clouds, 4, 12, 15), None);
    // the second cloud's left edge is at column -1: rain on columns 1, then none at 0
    assert_eq!(cloud_pixel(&clouds, 4, 0, 3), Some(CloudPixel::Body));
    assert_eq!(cloud_pixel(&clouds, 4, 1, 6), Some(CloudPixel::Rain));
    assert_eq!(cloud_pixel(&clouds, 4, 0, 6), None);
    assert_eq!(cloud_pixel(&clouds, 4, -1, 3), None);
}

#[test]
fn large_and_far_bodies() {
    // a disc of radius 200 centred off screen still covers the screen
    assert_eq!(planet_pixel(200, 100, 25, 0, 0), Some(PlanetPixel::Lit));
    assert_eq!(planet_pixel(200, 10_000, 25, 0, 0), None);
    assert_eq!(sun_pixel(200, 250, 25, 50, 25), Some(SunPixel::Outer));
    assert_eq!(sun_pixel(200, 251, 25, 49, 25), Some(SunPixel::Corona));
    assert_eq!(earth_pixel(200, 241, 25, 40, 25), Some(EarthPixel::Glow));
    assert_eq!(earth_pixel(200, -9_000, -9_000, 40, 25), None);
    assert!(matches!(jupiter_pixel(1000, 1040, 25, 40, 25), Some(JupiterPixel::Band { band: 2, .. })));
    assert_eq!(jupiter_pixel(1000, 10_000, 10_000, 40, 25), None);
    assert!(matches!(saturn_pixel(300, 40, 25, 40, 25), Some(SaturnPixel::Body { .. })));
    assert_eq!(disc_half_width(46_340, 0), 46_340);
    assert_eq!(disc_half_width(46_340, 46_339), 304);
    assert_eq!(disc_half_width(46_340, i32::MAX), 0);
}
