//! The journey from the city to the Oort cloud: which backdrop a score
//! shows, how far into it the dragon is, the phase's name in the heads-up
//! display, and the city skyline that sinks away during the first pipes.
use crate::sky::{sky_bg_color_at, spec_sky_color, Rgb8};
use crate::tuning::{
    on_screen, SCREEN_WIDTH, PHASE_ATMO_END, PHASE_CITY_END, PHASE_EARTH_END, PHASE_OORT_END, PHASE_SKY_END,
    PHASE_SOLAR_END, SCREEN_HEIGHT,
};
use vstd::prelude::*;

verus! {

/// The backdrop of each stretch of the journey.
#[derive(Clone, Copy, Debug, PartialEq, Eq, Structural)]
pub enum Backdrop {
    City,
    HighSky,
    Atmosphere,
    EarthOrbit,
    SolarSystem,
    OortCloud,
}

/// The backdrop for a score and how far into it the dragon is: `progress`
/// pipes out of the `span` pipes that the stretch lasts.
#[derive(Clone, Copy, Debug, PartialEq, Eq, Structural)]
pub struct Stage {
    pub backdrop: Backdrop,
    pub progress: i32,
    pub span: i32,
}

/// The stretch that a score falls in: below 25 pipes the city, below 100 the
/// high sky, below 200 the atmosphere, below 300 the Earth's orbit, below
/// 1300 the solar system, and beyond it the Oort cloud.
pub open spec fn spec_stage(score: int) -> Stage {
    if score < PHASE_CITY_END {
        Stage { backdrop: Backdrop::City, progress: score as i32, span: PHASE_CITY_END }
    } else if score < PHASE_SKY_END {
        Stage {
            backdrop: Backdrop::HighSky,
            progress: (score - PHASE_CITY_END) as i32,
            span: (PHASE_SKY_END - PHASE_CITY_END) as i32,
        }
    } else if score < PHASE_ATMO_END {
        Stage {
            backdrop: Backdrop::Atmosphere,
            progress: (score - PHASE_SKY_END) as i32,
            span: (PHASE_ATMO_END - PHASE_SKY_END) as i32,
        }
    } else if score < PHASE_EARTH_END {
        Stage {
            backdrop: Backdrop::EarthOrbit,
            progress: (score - PHASE_ATMO_END) as i32,
            span: (PHASE_EARTH_END - PHASE_ATMO_END) as i32,
        }
    } else if score < PHASE_SOLAR_END {
        Stage {
            backdrop: Backdrop::SolarSystem,
            progress: (score - PHASE_EARTH_END) as i32,
            span: (PHASE_SOLAR_END - PHASE_EARTH_END) as i32,
        }
    } else {
        Stage {
            backdrop: Backdrop::OortCloud,
            progress: (score - PHASE_SOLAR_END) as i32,
            span: (PHASE_OORT_END - PHASE_SOLAR_END) as i32,
        }
    }
}

/// The backdrop and the progress through it for the given score.
pub fn stage_for(score: i32) -> (stage: Stage)
    ensures
        stage == spec_stage(score as int),
{
    if score < PHASE_CITY_END {
        Stage { backdrop: Backdrop::City, progress: score, span: PHASE_CITY_END }
    } else if score < PHASE_SKY_END {
        Stage {
            backdrop: Backdrop::HighSky,
            progress: score - PHASE_CITY_END,
            span: PHASE_SKY_END - PHASE_CITY_END,
        }
    } else if score < PHASE_ATMO_END {
        Stage {
            backdrop: Backdrop::Atmosphere,
            progress: score - PHASE_SKY_END,
            span: PHASE_ATMO_END - PHASE_SKY_END,
        }
    } else if score < PHASE_EARTH_END {
        Stage {
            backdrop: Backdrop::EarthOrbit,
            progress: score - PHASE_ATMO_END,
            span: PHASE_EARTH_END - PHASE_ATMO_END,
        }
    } else if score < PHASE_SOLAR_END {
        Stage {
            backdrop: Backdrop::SolarSystem,
            progress: score - PHASE_EARTH_END,
            span: PHASE_SOLAR_END - PHASE_EARTH_END,
        }
    } else {
        Stage {
            backdrop: Backdrop::OortCloud,
            progress: score - PHASE_SOLAR_END,
            span: PHASE_OORT_END - PHASE_SOLAR_END,
        }
    }
}

/// The name of the stretch of the journey shown in the heads-up display.
pub open spec fn spec_phase_label(score: int) -> Seq<char> {
    if score < PHASE_CITY_END {
        "Ciudad"@
    } else if score < PHASE_SKY_END {
        "Estratosfera"@
    } else if score < PHASE_ATMO_END {
        "Atmosfera"@
    } else if score < PHASE_EARTH_END {
        "Orbita"@
    } else if score < 400 {
        "Marte"@
    } else if score < 620 {
        "Jupiter"@
    } else if score < 820 {
        "Saturno"@
    } else if score < 1020 {
        "Urano"@
    } else if score < 1200 {
        "Neptuno"@
    } else if score < PHASE_SOLAR_END {
        "Pluton"@
    } else {
        "Nube de Oort"@
    }
}

/// The name of the stretch of the journey that the score has reached.
pub fn phase_label(score: i32) -> (label: &'static str)
    ensures
        label@ == spec_phase_label(score as int),
{
    if score < PHASE_CITY_END {
        "Ciudad"
    } else if score < PHASE_SKY_END {
        "Estratosfera"
    } else if score < PHASE_ATMO_END {
        "Atmosfera"
    } else if score < PHASE_EARTH_END {
        "Orbita"
    } else if score < 400 {
        "Marte"
    } else if score < 620 {
        "Jupiter"
    } else if score < 820 {
        "Saturno"
    } else if score < 1020 {
        "Urano"
    } else if score < 1200 {
        "Neptuno"
    } else if score < PHASE_SOLAR_END {
        "Pluton"
    } else {
        "Nube de Oort"
    }
}

/// The label in the heads-up display follows the score's thresholds and
/// changes exactly where the backdrop does: "Ciudad" for the city (below 25
/// pipes), "Estratosfera" for the high sky (25 to 99), "Atmosfera" for the
/// atmosphere (100 to 199), "Orbita" for the Earth's orbit (200 to 299), a
/// planet's name through the solar system (300 to 1299: Marte below 400,
/// Jupiter below 620, Saturno below 820, Urano below 1020, Neptuno below
/// 1200, then Pluton) and "Nube de Oort" for the Oort cloud (from 1300).
pub proof fn lemma_label_follows_backdrop(score: int)
    ensures
        spec_phase_label(score) == "Ciudad"@ <==> score < 25,
        spec_phase_label(score) == "Ciudad"@ <==> spec_stage(score).backdrop == Backdrop::City,
        spec_phase_label(score) == "Estratosfera"@ <==> 25 <= score < 100,
        spec_phase_label(score) == "Estratosfera"@ <==> spec_stage(score).backdrop
            == Backdrop::HighSky,
        spec_phase_label(score) == "Atmosfera"@ <==> 100 <= score < 200,
        spec_phase_label(score) == "Atmosfera"@ <==> spec_stage(score).backdrop
            == Backdrop::Atmosphere,
        spec_phase_label(score) == "Orbita"@ <==> 200 <= score < 300,
        spec_phase_label(score) == "Orbita"@ <==> spec_stage(score).backdrop
            == Backdrop::EarthOrbit,
        spec_phase_label(score) == "Marte"@ <==> 300 <= score < 400,
        spec_phase_label(score) == "Jupiter"@ <==> 400 <= score < 620,
        spec_phase_label(score) == "Saturno"@ <==> 620 <= score < 820,
        spec_phase_label(score) == "Urano"@ <==> 820 <= score < 1020,
        spec_phase_label(score) == "Neptuno"@ <==> 1020 <= score < 1200,
        spec_phase_label(score) == "Pluton"@ <==> 1200 <= score < 1300,
        300 <= score < 1300 <==> spec_stage(score).backdrop == Backdrop::SolarSystem,
        spec_phase_label(score) == "Nube de Oort"@ <==> score >= 1300,
        spec_phase_label(score) == "Nube de Oort"@ <==> spec_stage(score).backdrop
            == Backdrop::OortCloud,
{
    reveal_strlit("Ciudad");
    reveal_strlit("Estratosfera");
    reveal_strlit("Atmosfera");
    reveal_strlit("Orbita");
    reveal_strlit("Marte");
    reveal_strlit("Jupiter");
    reveal_strlit("Saturno");
    reveal_strlit("Urano");
    reveal_strlit("Neptuno");
    reveal_strlit("Pluton");
    reveal_strlit("Nube de Oort");
    let names = seq![
        "Ciudad"@,
        "Estratosfera"@,
        "Atmosfera"@,
        "Orbita"@,
        "Marte"@,
        "Jupiter"@,
        "Saturno"@,
        "Urano"@,
        "Neptuno"@,
        "Pluton"@,
        "Nube de Oort"@,
    ];
    assert forall|i: int, j: int| 0 <= i < j < 11 implies names[i] != names[j] by {
        assert(names[i][0] != names[j][0] || names[i].len() != names[j].len() || names[i][1]
            != names[j][1]);
    }
    assert(names[0] == "Ciudad"@);
    assert(names[1] == "Estratosfera"@);
    assert(names[2] == "Atmosfera"@);
    assert(names[3] == "Orbita"@);
    assert(names[4] == "Marte"@);
    assert(names[5] == "Jupiter"@);
    assert(names[6] == "Saturno"@);
    assert(names[7] == "Urano"@);
    assert(names[8] == "Neptuno"@);
    assert(names[9] == "Pluton"@);
    assert(names[10] == "Nube de Oort"@);
}

/// A building of the skyline: its first column, its width and its top row.
#[derive(Clone, Copy, Debug, PartialEq, Eq, Structural)]
pub struct Building {
    pub x: i32,
    pub width: i32,
    pub top_y: i32,
}

/// The city as drawn for a score: the sky's colour, the row of the horizon
/// and the buildings that stand above it.
pub struct CityScene {
    pub sky: Rgb8,
    pub horizon_y: i32,
    pub buildings: Vec<Building>,
}

impl CityScene {
    /// The horizon lies between rows 38 and 52, and every building stands
    /// within the skyline's columns with its top between row 0 and the horizon.
    pub open spec fn wf(&self) -> bool {
        &&& 38 <= self.horizon_y <= 52
        &&& forall|i: int| 0 <= i < self.buildings.len() ==> (#[trigger] self.buildings@[i]).fits(self.horizon_y as int)
    }
}

impl Building {
    /// The building stands within the skyline's columns, 3 to 8 wide, its
    /// top between row 0 and the horizon.
    pub open spec fn fits(&self, horizon: int) -> bool {
        &&& 0 <= self.x <= 74
        &&& 3 <= self.width <= 8
        &&& 0 <= self.top_y < horizon
    }
}

/// Number of buildings in the skyline.
pub const SKYLINE_LEN: usize = 15;

/// The skyline: each building's first column, its width and its full
/// height in hundredths of 16 rows.
pub open spec fn spec_plot(i: int) -> (int, int, int) {
    if i == 0 {
        (0, 6, 55)
    } else if i == 1 {
        (6, 4, 40)
    } else if i == 2 {
        (10, 8, 75)
    } else if i == 3 {
        (18, 3, 35)
    } else if i == 4 {
        (21, 7, 65)
    } else if i == 5 {
        (28, 4, 45)
    } else if i == 6 {
        (32, 5, 80)
    } else if i == 7 {
        (37, 6, 60)
    } else if i == 8 {
        (43, 4, 50)
    } else if i == 9 {
        (47, 7, 70)
    } else if i == 10 {
        (54, 3, 40)
    } else if i == 11 {
        (57, 8, 85)
    } else if i == 12 {
        (65, 5, 55)
    } else if i == 13 {
        (70, 4, 65)
    } else {
        (74, 6, 50)
    }
}

/// The plot of the `i`th building of the skyline.
pub fn plot(i: usize) -> (p: (i32, i32, i32))
    ensures
        p.0 == spec_plot(i as int).0,
        p.1 == spec_plot(i as int).1,
        p.2 == spec_plot(i as int).2,
        0 <= p.0 <= 74,
        3 <= p.1 <= 8,
        35 <= p.2 <= 85,
{
    match i {
        0 => (0, 6, 55),
        1 => (6, 4, 40),
        2 => (10, 8, 75),
        3 => (18, 3, 35),
        4 => (21, 7, 65),
        5 => (28, 4, 45),
        6 => (32, 5, 80),
        7 => (37, 6, 60),
        8 => (43, 4, 50),
        9 => (47, 7, 70),
        10 => (54, 3, 40),
        11 => (57, 8, 85),
        12 => (65, 5, 55),
        13 => (70, 4, 65),
        _ => (74, 6, 50),
    }
}

/// The horizon sinks from row 38 by 15 rows over the 25 pipes of the city
/// (rounded down).
pub open spec fn spec_horizon(score: int) -> int {
    38 + (15 * score) / 25
}

/// A building's height: its full height, scaled down by 1.15 times the
/// share of the city stretch passed (never below nothing), rounded down.
pub open spec fn spec_height(percent: int, score: int) -> int {
    let scale = 1000 - 46 * score;
    if scale > 0 {
        (percent * 16 * scale) / 100_000
    } else {
        0
    }
}

/// The buildings among the first `n` of the skyline that still show: those
/// with some height whose top is on screen.
pub open spec fn spec_buildings(score: int, n: int) -> Seq<Building>
    decreases n,
{
    if n <= 0 {
        Seq::empty()
    } else {
        let rest = spec_buildings(score, n - 1);
        let (x, width, percent) = spec_plot(n - 1);
        let height = spec_height(percent, score);
        let top = spec_horizon(score) - height;
        if height > 0 && top < SCREEN_HEIGHT {
            rest.push(Building { x: x as i32, width: width as i32, top_y: top as i32 })
        } else {
            rest
        }
    }
}

/// The city for a score within the city stretch, under the sky of the given time.
pub fn city_scene(score: i32, sky_time_us: u64) -> (scene: CityScene)
    requires
        0 <= score < PHASE_CITY_END,
    ensures
        scene.sky == spec_sky_color(sky_time_us as int),
        scene.horizon_y == spec_horizon(score as int),
        scene.buildings@ == spec_buildings(score as int, SKYLINE_LEN as int),
        scene.wf(),
{
    let horizon_y = 38 + (15 * score) / 25;
    let scale = 1000 - 46 * score;
    let mut buildings: Vec<Building> = Vec::new();
    for i in 0..SKYLINE_LEN
        invariant
            0 <= score < PHASE_CITY_END,
            horizon_y == spec_horizon(score as int),
            scale == 1000 - 46 * score,
            buildings@ == spec_buildings(score as int, i as int),
            forall|j: int| 0 <= j < buildings.len() ==> (#[trigger] buildings@[j]).fits(horizon_y as int),
    {
        let (x, width, percent) = plot(i);
        let height = if scale > 0 {
            assert(0 <= percent * 16 * scale <= 85 * 16 * 1000) by (nonlinear_arith)
                requires
                    35 <= percent <= 85,
                    0 < scale <= 1000,
            ;
            (percent * 16 * scale) / 100_000
        } else {
            0
        };
        assert(height <= 13) by (nonlinear_arith)
            requires
                scale <= 1000,
                35 <= percent <= 85,
                height == if scale > 0 {
                    (percent * 16 * scale) / 100_000
                } else {
                    0
                },
        ;
        let top = horizon_y - height;
        if height > 0 && top < SCREEN_HEIGHT {
            buildings.push(Building { x, width, top_y: top });
        }
    }
    CityScene { sky: sky_bg_color_at(sky_time_us), horizon_y, buildings }
}

/// What a cell of the city shows (the sky shows through where nothing is).
#[derive(Clone, Copy, Debug, PartialEq, Eq, Structural)]
pub enum CityCell {
    Wall,
    Edge,
    Window { lit: bool },
    Roof,
    HorizonLine,
    Ground,
}

/// What building `b` shows at cell (`x`, `y`) above the horizon: its roof on
/// its top row; a window (lit or not) on every other column and row inside
/// its walls, from the row below the roof to two rows above the horizon;
/// elsewhere its wall, with edges on its first and last column.
pub open spec fn spec_building_cell(b: Building, horizon: int, x: int, y: int) -> Option<CityCell> {
    if !(b.x <= x < b.x + b.width && b.top_y <= y < horizon) {
        None
    } else if y == b.top_y {
        Some(CityCell::Roof)
    } else if b.top_y + 1 <= y < horizon - 1 && (y - b.top_y - 1) % 2 == 0 && b.x + 1 <= x < b.x
        + b.width - 1 && (x - b.x - 1) % 2 == 0 {
        Some(CityCell::Window { lit: spec_window_lit(b.x as int, x, y) })
    } else if x == b.x || x == b.x + b.width - 1 {
        Some(CityCell::Edge)
    } else {
        Some(CityCell::Wall)
    }
}

/// What the buildings show at a cell: the last building drawn that covers
/// it, if any.
pub open spec fn spec_buildings_cell(bs: Seq<Building>, horizon: int, x: int, y: int) -> Option<
    CityCell,
>
    decreases bs.len(),
{
    if bs.len() == 0 {
        None
    } else {
        match spec_building_cell(bs.last(), horizon, x, y) {
            Some(c) => Some(c),
            None => spec_buildings_cell(bs.drop_last(), horizon, x, y),
        }
    }
}

/// What the city shows at cell (`x`, `y`): nothing off screen; on and below
/// the horizon the ground, with the horizon's own row drawn as a line; above
/// it whatever building covers the cell.
pub open spec fn spec_city_cell(bs: Seq<Building>, horizon: int, x: int, y: int) -> Option<
    CityCell,
> {
    if !on_screen(x, y) {
        None
    } else if y >= horizon {
        Some(
            if y == horizon {
                CityCell::HorizonLine
            } else {
                CityCell::Ground
            },
        )
    } else {
        spec_buildings_cell(bs, horizon, x, y)
    }
}

fn building_cell(b: Building, horizon: i32, x: i32, y: i32) -> (c: Option<CityCell>)
    requires
        b.fits(horizon as int),
        38 <= horizon <= 52,
        0 <= x < SCREEN_WIDTH,
        0 <= y < SCREEN_HEIGHT,
    ensures
        c == spec_building_cell(b, horizon as int, x as int, y as int),
{
    if !(b.x <= x && x < b.x + b.width && b.top_y <= y && y < horizon) {
        None
    } else if y == b.top_y {
        Some(CityCell::Roof)
    } else if b.top_y + 1 <= y && y < horizon - 1 && (y - b.top_y - 1) % 2 == 0 && b.x + 1 <= x
        && x < b.x + b.width - 1 && (x - b.x - 1) % 2 == 0 {
        Some(CityCell::Window { lit: window_lit(b.x, x, y) })
    } else if x == b.x || x == b.x + b.width - 1 {
        Some(CityCell::Edge)
    } else {
        Some(CityCell::Wall)
    }
}

/// What the city shows at cell (`x`, `y`); `None` where the sky shows or
/// the cell is off screen.
pub fn city_cell(scene: &CityScene, x: i32, y: i32) -> (c: Option<CityCell>)
    requires
        scene.wf(),
    ensures
        c == spec_city_cell(scene.buildings@, scene.horizon_y as int, x as int, y as int),
        c is Some ==> on_screen(x as int, y as int),
{
    if x < 0 || x >= SCREEN_WIDTH || y < 0 || y >= SCREEN_HEIGHT {
        return None;
    }
    if y >= scene.horizon_y {
        return Some(
            if y == scene.horizon_y {
                CityCell::HorizonLine
            } else {
                CityCell::Ground
            },
        );
    }
    let mut found: Option<CityCell> = None;
    let n = scene.buildings.len();
    for i in 0..n
        invariant
            n == scene.buildings.len(),
            scene.wf(),
            0 <= x < SCREEN_WIDTH,
            0 <= y < SCREEN_HEIGHT,
            found == spec_buildings_cell(
                scene.buildings@.take(i as int),
                scene.horizon_y as int,
                x as int,
                y as int,
            ),
    {
        let b = scene.buildings[i];
        assert(scene.buildings@.take(i + 1).drop_last() =~= scene.buildings@.take(i as int));
        assert(scene.buildings@.take(i + 1).last() == b);
        let here = building_cell(b, scene.horizon_y, x, y);
        if here.is_some() {
            found = here;
        }
    }
    assert(scene.buildings@.take(n as int) =~= scene.buildings@);
    found
}

/// Late in the city stretch, once 1.15 times the share passed reaches a
/// whole (from 22 pipes on), no building is left standing.
pub proof fn lemma_city_gone(score: int, n: int)
    requires
        22 <= score < PHASE_CITY_END,
    ensures
        spec_buildings(score, n).len() == 0,
    decreases n,
{
    if n > 0 {
        lemma_city_gone(score, n - 1);
    }
}

/// Whether the window at column `wx` and row `wy` of the building starting
/// at column `bx` is lit: four windows in five are, in a fixed scatter.
pub open spec fn spec_window_lit(bx: int, wx: int, wy: int) -> bool {
    (wx * 7 + wy * 13 + bx * 3) % 5 != 0
}

/// Whether a window of the skyline is lit.
pub fn window_lit(bx: i32, wx: i32, wy: i32) -> (lit: bool)
    requires
        0 <= bx <= 1000,
        0 <= wx <= 1000,
        0 <= wy <= 1000,
    ensures
        lit == spec_window_lit(bx as int, wx as int, wy as int),
{
    (wx * 7 + wy * 13 + bx * 3) % 5 != 0
}

/// Number of decimal digits of a natural number.
pub open spec fn spec_digits(n: nat) -> nat
    decreases n,
{
    if n < 10 {
        1
    } else {
        1 + spec_digits(n / 10)
    }
}

/// Length of a score written in decimal, with a minus sign when negative.
pub open spec fn spec_score_text_len(score: int) -> int {
    if score < 0 {
        1 + spec_digits((-score) as nat) as int
    } else {
        spec_digits(score as nat) as int
    }
}

proof fn lemma_digits_of_i32(n: nat)
    requires
        n <= 2_147_483_648,
    ensures
        1 <= spec_digits(n) <= 10,
{
    reveal_with_fuel(spec_digits, 11);
}

/// Length of the score as the heads-up display writes it.
pub fn score_text_len(score: i32) -> (len: i32)
    ensures
        len == spec_score_text_len(score as int),
        1 <= len <= 11,
{
    let mut n: u64 = if score < 0 {
        (-(score as i64)) as u64
    } else {
        score as u64
    };
    let ghost whole = n as nat;
    proof {
        lemma_digits_of_i32(whole);
    }
    let mut count: i32 = 1;
    while n >= 10
        invariant
            count + spec_digits(n as nat) == spec_digits(whole) + 1,
            1 <= count,
            n <= 2_147_483_648,
            spec_digits(whole) <= 10,
        decreases n,
    {
        n = n / 10;
        count = count + 1;
    }
    if score < 0 {
        count + 1
    } else {
        count
    }
}

/// The column at which the heads-up display's score box starts, so that
/// the box (the score and a border) ends four columns short of the right edge.
pub fn score_box_x(score: i32) -> (x: i32)
    ensures
        x == SCREEN_WIDTH - spec_score_text_len(score as int) - 4,
{
    SCREEN_WIDTH - score_text_len(score) - 4
}

/// Ice particles drawn in the Oort cloud, at most.
pub const OORT_PARTICLES: i32 = 120;

/// Where the `i`th ice particle of the Oort cloud is, and its brightness
/// (40 to 119), scattered by fixed quadratic rules.
pub open spec fn spec_oort_particle(i: int) -> (int, int, int) {
    ((i * 17 + i * i * 3) % (SCREEN_WIDTH as int), (i * 11 + i * i * 7) % (SCREEN_HEIGHT as int), (
    i * 31) % 80 + 40)
}

/// The `i`th ice particle of the Oort cloud: its column, row and brightness.
pub fn oort_particle(i: i32) -> (p: (i32, i32, u8))
    requires
        0 <= i < OORT_PARTICLES,
    ensures
        p.0 == spec_oort_particle(i as int).0,
        p.1 == spec_oort_particle(i as int).1,
        p.2 == spec_oort_particle(i as int).2,
        0 <= p.0 < SCREEN_WIDTH,
        0 <= p.1 < SCREEN_HEIGHT,
{
    assert(0 <= i * i <= 120 * 120) by (nonlinear_arith)
        requires
            0 <= i < 120,
    ;
    let x = (i * 17 + i * i * 3) % SCREEN_WIDTH;
    let y = (i * 11 + i * i * 7) % SCREEN_HEIGHT;
    let b = ((i * 31) % 80) as u8 + 40;
    (x, y, b)
}

/// On every score of the journey the progress lies within its stretch,
/// which is never empty.
pub proof fn lemma_stage_progress(score: int)
    requires
        0 <= score <= PHASE_OORT_END,
    ensures
        0 <= spec_stage(score).progress <= spec_stage(score).span,
        spec_stage(score).span > 0,
{
}

} // verus!
