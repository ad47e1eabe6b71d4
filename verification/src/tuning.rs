//! Screen geometry, journey thresholds and the difficulty curves.
use vstd::prelude::*;

verus! {

/// Width of the play field, in cells.
pub const SCREEN_WIDTH: i32 = 83;

/// Height of the play field, in cells.
pub const SCREEN_HEIGHT: i32 = 50;

/// Screen column at which the dragon is drawn; pipes scroll relative to it.
pub const PLAYER_SCREEN_COL: i32 = 3;

/// Pipes passed before the city has zoomed out of view.
pub const PHASE_CITY_END: i32 = 25;

/// Pipes passed before the stratosphere gives way to the upper atmosphere.
pub const PHASE_SKY_END: i32 = 100;

/// Pipes passed before the dragon reaches space.
pub const PHASE_ATMO_END: i32 = 200;

/// Pipes passed before the Earth has shrunk away.
pub const PHASE_EARTH_END: i32 = 300;

/// Pipes passed before the dragon has left the planets behind (past Pluto).
pub const PHASE_SOLAR_END: i32 = 1300;

/// Pipes passed to cross the Oort cloud, which wins the journey.
pub const PHASE_OORT_END: i32 = 1400;

/// One millisecond, in the microseconds in which the game keeps time.
pub const MICROS_PER_MS: u64 = 1000;

/// Time between two moves of the dragon in classic mode, and at the start of the journey.
pub const BASE_FRAME_DURATION_US: u64 = 75_000;

/// The journey never moves the dragon faster than once per this many microseconds.
pub const MIN_FRAME_DURATION_US: u64 = 40_000;

/// Whether cell (`x`, `y`) is on screen.
pub open spec fn on_screen(x: int, y: int) -> bool {
    0 <= x < SCREEN_WIDTH && 0 <= y < SCREEN_HEIGHT
}

/// Integer division that rounds toward zero, as Rust's `/` does on integers.
pub open spec fn div_toward_zero(a: int, b: int) -> int
    recommends
        b > 0,
{
    if a >= 0 {
        a / b
    } else {
        -((-a) / b)
    }
}

/// Time between moves: 75 ms in classic mode; on the journey 75 ms less half a
/// millisecond per pipe passed, never below 40 ms.
pub open spec fn spec_frame_duration(score: int, classic: bool) -> int {
    if classic {
        75_000
    } else if 75_000 - 500 * score > 40_000 {
        75_000 - 500 * score
    } else {
        40_000
    }
}

/// Microseconds that must elapse between two moves of the dragon.
pub fn frame_duration_for(score: i32, classic: bool) -> (us: u64)
    ensures
        us == spec_frame_duration(score as int, classic),
{
    if classic {
        return BASE_FRAME_DURATION_US;
    }
    let raw: i64 = 75_000i64 - 500i64 * (score as i64);
    if raw > 40_000 {
        raw as u64
    } else {
        MIN_FRAME_DURATION_US
    }
}

/// Gap between pipes: in classic mode it shrinks by one per pipe down to 2;
/// on the journey it starts at 16 and shrinks by 2 every 20 pipes, down to 4.
pub open spec fn spec_gap_size(score: int, classic: bool) -> int {
    if classic {
        if 20 - score > 2 {
            20 - score
        } else {
            2
        }
    } else {
        let shrink = div_toward_zero(score, 20) * 2;
        if 16 - shrink > 4 {
            16 - shrink
        } else {
            4
        }
    }
}

/// Size of the gap of a new pipe for the given score.
pub fn gap_size_for(score: i32, classic: bool) -> (size: i32)
    requires
        classic ==> 20 - score <= i32::MAX,
    ensures
        size == spec_gap_size(score as int, classic),
{
    if classic {
        let raw = 20 - score;
        if raw > 2 {
            raw
        } else {
            2
        }
    } else {
        let raw = 16 - (score / 20) * 2;
        if raw > 4 {
            raw
        } else {
            4
        }
    }
}

/// Columns the dragon advances per move: two in both modes, at every score
/// (the journey speeds up through `frame_duration_for` alone).
pub fn player_x_speed_for(score: i32, classic: bool) -> (speed: i32)
    ensures
        speed == 2,
{
    if classic {
        return 2;
    }
    2
}

/// The delay between moves lies between 40 ms and 75 ms for every score that
/// the game reaches, and classic mode always waits 75 ms.
pub proof fn lemma_frame_duration_bounds(score: int, classic: bool)
    requires
        score >= 0,
    ensures
        40_000 <= spec_frame_duration(score, classic) <= 75_000,
        classic ==> spec_frame_duration(score, classic) == 75_000,
{
}

/// Passing more pipes never makes the dragon move more slowly.
pub proof fn lemma_frame_duration_monotone(a: int, b: int, classic: bool)
    requires
        a <= b,
    ensures
        spec_frame_duration(b, classic) <= spec_frame_duration(a, classic),
{
}

/// Passing more pipes never widens the gap, and the gap never falls below
/// 2 cells in classic mode nor below 4 on the journey.
pub proof fn lemma_gap_size_shrinks(a: int, b: int, classic: bool)
    requires
        0 <= a <= b,
    ensures
        spec_gap_size(b, classic) <= spec_gap_size(a, classic),
        classic ==> 2 <= spec_gap_size(a, classic) <= 20,
        !classic ==> 4 <= spec_gap_size(a, classic) <= 16,
{
    assert(a / 20 <= b / 20) by (nonlinear_arith)
        requires
            0 <= a <= b,
    ;
}

} // verus!
