//! The weather: a chain of five states from clear to storm, and the clouds
//! that drift across the sky.
use crate::sky::Rgb8;
use crate::tuning::{div_toward_zero, on_screen, SCREEN_HEIGHT, SCREEN_WIDTH};
use vstd::prelude::*;

verus! {

/// Cloud positions are kept in millionths of a cell.
pub const MICRO_CELLS: i64 = 1_000_000;

/// Clouds drift left by 3 millionths of a cell per microsecond (3 cells a second).
pub const DRIFT_PER_US: i64 = 3;

/// The most clouds the sky ever holds (in the overcast state).
pub const MAX_CLOUDS: usize = 10;

/// A cloud: its left edge `x` in millionths of a cell, its row and its width.
#[derive(Clone, Copy, Debug, PartialEq, Eq, Structural)]
pub struct Cloud {
    pub x: i64,
    pub y: i32,
    pub width: i32,
}

/// How a cloud looks in a given weather: its glyph and its colour.
#[derive(Clone, Copy, Debug, PartialEq, Eq, Structural)]
pub struct CloudStyle {
    pub glyph: u16,
    pub color: Rgb8,
}

/// The next weather, given the current one and a roll from 0 to 9:
/// clear turns light 70% of the time; light clears 40%, stays 30%, thickens 30%;
/// cloudy lightens 30%, stays 30%, turns overcast 40%; overcast lightens 40%,
/// stays 30%, turns stormy 30%; a storm eases to overcast 60% and to cloudy 40%.
/// Any other state clears.
pub open spec fn spec_next_weather(current: int, roll: int) -> int {
    if current == 0 {
        if roll < 7 {
            1
        } else {
            0
        }
    } else if current == 1 {
        if roll < 4 {
            0
        } else if roll < 7 {
            1
        } else {
            2
        }
    } else if current == 2 {
        if roll < 3 {
            1
        } else if roll < 6 {
            2
        } else {
            3
        }
    } else if current == 3 {
        if roll < 4 {
            2
        } else if roll < 7 {
            3
        } else {
            4
        }
    } else if current == 4 {
        if roll < 6 {
            3
        } else {
            2
        }
    } else {
        0
    }
}

/// Whether the weather draws a roll to change (every state from clear to storm does).
pub open spec fn weather_rolls(current: int) -> bool {
    0 <= current <= 4
}

/// The next weather state for a roll from 0 to 9.
pub fn next_weather_from_roll(current: u8, roll: i32) -> (next: u8)
    ensures
        next == spec_next_weather(current as int, roll as int),
{
    match current {
        0 => if roll < 7 {
            1
        } else {
            0
        },
        1 => if roll < 4 {
            0
        } else if roll < 7 {
            1
        } else {
            2
        },
        2 => if roll < 3 {
            1
        } else if roll < 6 {
            2
        } else {
            3
        },
        3 => if roll < 4 {
            2
        } else if roll < 7 {
            3
        } else {
            4
        },
        4 => if roll < 6 {
            3
        } else {
            2
        },
        _ => 0,
    }
}

/// How many clouds each weather wants in the sky.
pub open spec fn spec_cloud_target(weather: int) -> int {
    if weather == 1 {
        3
    } else if weather == 2 {
        6
    } else if weather == 3 {
        10
    } else if weather == 4 {
        8
    } else {
        0
    }
}

/// How many clouds the given weather wants in the sky.
pub fn cloud_target(weather: u8) -> (n: usize)
    ensures
        n == spec_cloud_target(weather as int),
        n <= MAX_CLOUDS,
{
    match weather {
        1 => 3,
        2 => 6,
        3 => 10,
        4 => 8,
        _ => 0,
    }
}

/// Widths that a new cloud can have in each weather: from `lo` up to below `hi`.
pub open spec fn spec_width_range(weather: int) -> (int, int) {
    if weather == 1 {
        (4, 9)
    } else if weather == 2 {
        (8, 16)
    } else {
        (12, 22)
    }
}

/// The width range from which a new cloud's width is drawn.
pub fn width_range(weather: u8) -> (range: (i32, i32))
    ensures
        range.0 == spec_width_range(weather as int).0,
        range.1 == spec_width_range(weather as int).1,
        range.0 < range.1,
{
    if weather == 1 {
        (4, 9)
    } else if weather == 2 {
        (8, 16)
    } else {
        (12, 22)
    }
}

/// The cloud that enters at row `y`, `x_offset` cells past the right edge.
pub open spec fn spec_spawned(y: int, width: int, x_offset: int) -> Cloud {
    Cloud { x: ((SCREEN_WIDTH + x_offset) * MICRO_CELLS) as i64, y: y as i32, width: width as i32 }
}

/// Whether a cloud is still (partly) in the sky after drifting `delta_us`:
/// its left edge has not gone past two cells beyond its width off the left edge.
pub open spec fn keeps(c: Cloud, delta_us: int) -> bool {
    c.x - DRIFT_PER_US * delta_us > -(c.width + 2) * MICRO_CELLS
}

/// The clouds after drifting `delta_us`, in the same order, without those
/// that have left the sky.
pub open spec fn spec_drift(s: Seq<Cloud>, delta_us: int) -> Seq<Cloud>
    decreases s.len(),
{
    if s.len() == 0 {
        Seq::empty()
    } else {
        let rest = spec_drift(s.drop_last(), delta_us);
        let c = s.last();
        if keeps(c, delta_us) {
            rest.push(Cloud { x: (c.x - DRIFT_PER_US * delta_us) as i64, ..c })
        } else {
            rest
        }
    }
}

impl Cloud {
    /// A cloud within the ranges the game spawns: rows 3 to 9, width 4 to 21,
    /// not yet gone and not further than 20 cells beyond the right edge.
    pub open spec fn inv(&self) -> bool {
        &&& 3 <= self.y < 10
        &&& 4 <= self.width < 22
        &&& -(self.width + 2) * MICRO_CELLS < self.x < (SCREEN_WIDTH + 20) * MICRO_CELLS
    }

    /// The cloud that enters at row `y` with the given width, `x_offset` cells
    /// past the right edge of the screen.
    pub fn spawned(y: i32, width: i32, x_offset: i32) -> (c: Cloud)
        requires
            3 <= y < 10,
            4 <= width < 22,
            0 <= x_offset < 20,
        ensures
            c == spec_spawned(y as int, width as int, x_offset as int),
            c.inv(),
    {
        Cloud { x: ((SCREEN_WIDTH + x_offset) as i64) * MICRO_CELLS, y, width }
    }

    /// The screen column of the cloud's left edge (rounded toward zero).
    pub open spec fn spec_screen_x(&self) -> int {
        div_toward_zero(self.x as int, MICRO_CELLS as int)
    }

    /// The column of the cloud's left edge on screen.
    pub fn screen_x(&self) -> (col: i32)
        requires
            self.inv(),
        ensures
            col == self.spec_screen_x(),
            -24 < col < SCREEN_WIDTH + 20,
    {
        let col = self.x / MICRO_CELLS;
        assert(-24 < col < 103) by (nonlinear_arith)
            requires
                -24_000_000 < self.x < 103_000_000,
                col == div_toward_zero(self.x as int, 1_000_000),
        ;
        col as i32
    }

    /// The cloud's columns that are on screen: from `.0` up to below `.1`
    /// (empty when `.0 >= .1`).
    pub fn visible_columns(&self) -> (span: (i32, i32))
        requires
            self.inv(),
        ensures
            span.0 == (if self.spec_screen_x() > 0 {
                self.spec_screen_x()
            } else {
                0
            }),
            span.1 == (if self.spec_screen_x() + self.width < SCREEN_WIDTH {
                self.spec_screen_x() + self.width
            } else {
                SCREEN_WIDTH as int
            }),
    {
        let cx = self.screen_x();
        let first = if cx > 0 {
            cx
        } else {
            0
        };
        let end = if cx + self.width < SCREEN_WIDTH {
            cx + self.width
        } else {
            SCREEN_WIDTH
        };
        (first, end)
    }
}

/// Lets every cloud drift for `delta_us` and drops those that have left the sky.
pub fn drift_clouds(clouds: &Vec<Cloud>, delta_us: u64) -> (kept: Vec<Cloud>)
    requires
        forall|i: int| 0 <= i < clouds.len() ==> (#[trigger] clouds@[i]).inv(),
    ensures
        kept@ == spec_drift(clouds@, delta_us as int),
        kept.len() <= clouds.len(),
        forall|i: int| 0 <= i < kept.len() ==> (#[trigger] kept@[i]).inv(),
{
    let mut kept: Vec<Cloud> = Vec::new();
    let n = clouds.len();
    let drift: i128 = (DRIFT_PER_US as i128) * (delta_us as i128);
    for i in 0..n
        invariant
            n == clouds.len(),
            drift == DRIFT_PER_US * delta_us,
            forall|j: int| 0 <= j < clouds.len() ==> (#[trigger] clouds@[j]).inv(),
            kept@ == spec_drift(clouds@.take(i as int), delta_us as int),
            kept.len() <= i,
            forall|j: int| 0 <= j < kept.len() ==> (#[trigger] kept@[j]).inv(),
    {
        let c = clouds[i];
        assert(clouds@.take(i + 1).drop_last() =~= clouds@.take(i as int));
        assert(clouds@.take(i + 1).last() == c);
        let moved: i128 = (c.x as i128) - drift;
        let floor: i128 = -((c.width as i128) + 2) * (MICRO_CELLS as i128);
        if moved > floor {
            kept.push(Cloud { x: moved as i64, y: c.y, width: c.width });
        }
    }
    assert(clouds@.take(n as int) =~= clouds@);
    kept
}

/// A roll that yields `timer` for the weather's next change: 15 to 44 seconds.
pub open spec fn spec_weather_timer(roll: int) -> int {
    15_000_000 + roll * 1_000_000
}

/// How long the new weather lasts for a roll from 0 to 29: 15 seconds and
/// as many more whole seconds as the roll.
pub fn weather_timer_from_roll(roll: i32) -> (timer: u64)
    requires
        0 <= roll < 30,
    ensures
        timer == spec_weather_timer(roll as int),
{
    15_000_000 + (roll as u64) * 1_000_000
}

/// Whether `c` is a cloud that the given weather can bring in: on a row from
/// 3 to 9, as wide as the weather's range allows, up to 19 cells past the
/// right edge.
pub open spec fn spawnable(weather: int, c: Cloud) -> bool {
    exists|y: int, width: int, x_offset: int|
        3 <= y < 10 && spec_width_range(weather).0 <= width < spec_width_range(weather).1 && 0
            <= x_offset < 20 && c == #[trigger] spec_spawned(y, width, x_offset)
}

/// How clouds look in each weather: light, medium, heavy and storm clouds;
/// a clear sky shows none.
pub open spec fn spec_cloud_style(weather: int) -> Option<CloudStyle> {
    if weather == 1 {
        Some(CloudStyle { glyph: 176, color: Rgb8 { r: 220, g: 220, b: 220 } })
    } else if weather == 2 {
        Some(CloudStyle { glyph: 177, color: Rgb8 { r: 190, g: 190, b: 190 } })
    } else if weather == 3 {
        Some(CloudStyle { glyph: 178, color: Rgb8 { r: 140, g: 140, b: 140 } })
    } else if weather == 4 {
        Some(CloudStyle { glyph: 219, color: Rgb8 { r: 70, g: 70, b: 80 } })
    } else {
        None
    }
}

/// The glyph and colour of the clouds in the given weather, if it shows any.
pub fn cloud_style(weather: u8) -> (style: Option<CloudStyle>)
    ensures
        style == spec_cloud_style(weather as int),
{
    match weather {
        1 => Some(CloudStyle { glyph: 176, color: Rgb8 { r: 220, g: 220, b: 220 } }),
        2 => Some(CloudStyle { glyph: 177, color: Rgb8 { r: 190, g: 190, b: 190 } }),
        3 => Some(CloudStyle { glyph: 178, color: Rgb8 { r: 140, g: 140, b: 140 } }),
        4 => Some(CloudStyle { glyph: 219, color: Rgb8 { r: 70, g: 70, b: 80 } }),
        _ => None,
    }
}

/// What a cell under the clouds shows: a cloud, or the rain below one.
#[derive(Clone, Copy, Debug, PartialEq, Eq, Structural)]
pub enum CloudPixel {
    Body,
    Rain,
}

/// What cloud `c` shows at cell (`x`, `y`) in the given weather: its body on
/// its row and the one below (while on screen) across its width; in a storm,
/// rain on every other column from its left edge, from two to nine rows
/// below its row (while on screen).
pub open spec fn spec_cloud_cover(c: Cloud, weather: int, x: int, y: int) -> Option<CloudPixel> {
    let dx = x - c.spec_screen_x();
    if !(0 <= dx < c.width) {
        None
    } else if y == c.y || (y == c.y + 1 && c.y + 1 < SCREEN_HEIGHT) {
        Some(CloudPixel::Body)
    } else if weather == 4 && dx % 2 == 0 && c.y + 2 <= y < c.y + 10 && y < SCREEN_HEIGHT {
        Some(CloudPixel::Rain)
    } else {
        None
    }
}

/// What the clouds show at a cell: the last cloud drawn that covers it.
pub open spec fn spec_clouds_cover(cs: Seq<Cloud>, weather: int, x: int, y: int) -> Option<
    CloudPixel,
>
    decreases cs.len(),
{
    if cs.len() == 0 {
        None
    } else {
        match spec_cloud_cover(cs.last(), weather, x, y) {
            Some(p) => Some(p),
            None => spec_clouds_cover(cs.drop_last(), weather, x, y),
        }
    }
}

/// What the sky's clouds show at cell (`x`, `y`): nothing off screen or in
/// a weather without clouds; otherwise the last cloud covering the cell.
pub open spec fn spec_cloud_pixel(cs: Seq<Cloud>, weather: int, x: int, y: int) -> Option<
    CloudPixel,
> {
    if !on_screen(x, y) || spec_cloud_style(weather) is None {
        None
    } else {
        spec_clouds_cover(cs, weather, x, y)
    }
}

fn cloud_cover(c: &Cloud, weather: u8, x: i32, y: i32) -> (p: Option<CloudPixel>)
    requires
        c.inv(),
        0 <= x < SCREEN_WIDTH,
        0 <= y < SCREEN_HEIGHT,
    ensures
        p == spec_cloud_cover(*c, weather as int, x as int, y as int),
{
    let dx = x - c.screen_x();
    if !(0 <= dx && dx < c.width) {
        None
    } else if y == c.y || (y == c.y + 1 && c.y + 1 < SCREEN_HEIGHT) {
        Some(CloudPixel::Body)
    } else if weather == 4 && dx % 2 == 0 && c.y + 2 <= y && y < c.y + 10 && y < SCREEN_HEIGHT {
        Some(CloudPixel::Rain)
    } else {
        None
    }
}

/// What the clouds show at cell (`x`, `y`) in the given weather; `None`
/// where the sky shows or the cell is off screen.
pub fn cloud_pixel(clouds: &Vec<Cloud>, weather: u8, x: i32, y: i32) -> (p: Option<CloudPixel>)
    requires
        forall|i: int| 0 <= i < clouds.len() ==> (#[trigger] clouds@[i]).inv(),
    ensures
        p == spec_cloud_pixel(clouds@, weather as int, x as int, y as int),
        p is Some ==> on_screen(x as int, y as int),
{
    if x < 0 || x >= SCREEN_WIDTH || y < 0 || y >= SCREEN_HEIGHT || cloud_style(weather).is_none() {
        return None;
    }
    let mut found: Option<CloudPixel> = None;
    let n = clouds.len();
    for i in 0..n
        invariant
            n == clouds.len(),
            forall|j: int| 0 <= j < clouds.len() ==> (#[trigger] clouds@[j]).inv(),
            0 <= x < SCREEN_WIDTH,
            0 <= y < SCREEN_HEIGHT,
            found == spec_clouds_cover(clouds@.take(i as int), weather as int, x as int, y as int),
    {
        assert(clouds@.take(i + 1).drop_last() =~= clouds@.take(i as int));
        assert(clouds@.take(i + 1).last() == clouds@[i as int]);
        let here = cloud_cover(&clouds[i], weather, x, y);
        if here.is_some() {
            found = here;
        }
    }
    assert(clouds@.take(n as int) =~= clouds@);
    found
}

/// Whether it rains below the clouds: only in a storm.
pub fn rains(weather: u8) -> (r: bool)
    ensures
        r == (weather == 4),
{
    weather == 4
}

/// The weather moves at most two steps at a time and stays between clear
/// and storm; a clear sky can only turn light, and a storm never clears at once.
pub proof fn lemma_weather_chain(current: int, roll: int)
    requires
        0 <= current <= 4,
    ensures
        0 <= spec_next_weather(current, roll) <= 4,
        -2 <= spec_next_weather(current, roll) - current <= 2,
        current == 0 ==> spec_next_weather(current, roll) <= 1,
        current == 4 ==> 2 <= spec_next_weather(current, roll) <= 3,
{
}

/// Drifting, cloud by cloud: every cloud moves left by 3 millionths of a
/// cell per microsecond, and exactly those whose left edge is then still to
/// the right of `-(width + 2)` cells stay, in their order; the others are gone.
pub proof fn lemma_drift_moves_and_drops(s: Seq<Cloud>, delta_us: nat)
    ensures
        spec_drift(s, delta_us as int) == s.filter(
            |c: Cloud| c.x - 3 * delta_us > -(c.width + 2) * 1_000_000,
        ).map_values(|c: Cloud| Cloud { x: (c.x - 3 * delta_us) as i64, ..c }),
    decreases s.len(),
{
    reveal(Seq::filter);
    let pred = |c: Cloud| c.x - 3 * delta_us > -(c.width + 2) * 1_000_000;
    let mv = |c: Cloud| Cloud { x: (c.x - 3 * delta_us) as i64, ..c };
    if s.len() > 0 {
        lemma_drift_moves_and_drops(s.drop_last(), delta_us);
        let sub = s.drop_last().filter(pred);
        if pred(s.last()) {
            assert(sub.push(s.last()).map_values(mv) =~= sub.map_values(mv).push(mv(s.last())));
        }
    } else {
        assert(s.filter(pred).map_values(mv) =~= Seq::<Cloud>::empty());
    }
}

/// A cloud that still has a column on screen after drifting (its left edge
/// right of `-width` cells) is never dropped: when every cloud does, all of
/// them stay, in order, each moved left by `3 * delta_us` millionths of a cell.
pub proof fn lemma_visible_clouds_stay(s: Seq<Cloud>, delta_us: nat)
    requires
        forall|i: int| 0 <= i < s.len() ==> #[trigger] s[i].x - 3 * delta_us > -s[i].width
            * 1_000_000,
        forall|i: int| 0 <= i < s.len() ==> #[trigger] s[i].width >= 0,
    ensures
        spec_drift(s, delta_us as int).len() == s.len(),
        forall|i: int|
            0 <= i < s.len() ==> #[trigger] spec_drift(s, delta_us as int)[i] == (Cloud {
                x: (s[i].x - 3 * delta_us) as i64,
                ..s[i]
            }),
    decreases s.len(),
{
    if s.len() > 0 {
        let last = s.len() - 1;
        assert(s[last].x - 3 * delta_us > -s[last].width * 1_000_000);
        assert(s[last].width >= 0);
        assert(s.drop_last().len() == last);
        assert forall|i: int| 0 <= i < s.drop_last().len() implies #[trigger] s.drop_last()[i].x
            - 3 * delta_us > -s.drop_last()[i].width * 1_000_000 && s.drop_last()[i].width >= 0 by {
            assert(s.drop_last()[i] == s[i]);
            assert(s[i].x - 3 * delta_us > -s[i].width * 1_000_000);
            assert(s[i].width >= 0);
        }
        lemma_visible_clouds_stay(s.drop_last(), delta_us);
        assert(keeps(s.last(), delta_us as int));
    }
}

/// Drifting never adds clouds.
pub proof fn lemma_drift_shrinks(s: Seq<Cloud>, delta_us: nat)
    ensures
        spec_drift(s, delta_us as int).len() <= s.len(),
    decreases s.len(),
{
    if s.len() > 0 {
        lemma_drift_shrinks(s.drop_last(), delta_us);
    }
}

} // verus!
