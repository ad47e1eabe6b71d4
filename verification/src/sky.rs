//! The day/night clock: the sky's colour and where the sun, moon and stars are.
use vstd::prelude::*;

verus! {

/// Length of one of the six sky phases (dawn, morning, noon, afternoon, dusk, night).
pub const SKY_PHASE_US: u64 = 30_000_000;

/// Length of a full day, six phases.
pub const SKY_TOTAL_US: u64 = 180_000_000;

/// A colour with 8-bit channels.
#[derive(Clone, Copy, Debug, PartialEq, Eq, Structural)]
pub struct Rgb8 {
    pub r: u8,
    pub g: u8,
    pub b: u8,
}

/// Where a body of the sky (the sun or the moon) is drawn, and whether
/// clouds dim it.
#[derive(Clone, Copy, Debug, PartialEq, Eq, Structural)]
pub struct SkyBody {
    pub x: i32,
    pub dimmed: bool,
}

/// What the sky shows: the stars' brightness when they are out, the sun and the moon.
#[derive(Clone, Copy, Debug, PartialEq, Eq, Structural)]
pub struct SkyBodies {
    pub stars: Option<u8>,
    pub sun: Option<SkyBody>,
    pub moon: Option<SkyBody>,
}

/// The sky's colour at the start of each phase: dawn, morning, noon,
/// afternoon, dusk, night.
pub open spec fn spec_palette(phase: int) -> Rgb8 {
    if phase == 0 {
        Rgb8 { r: 255, g: 100, b: 50 }
    } else if phase == 1 {
        Rgb8 { r: 255, g: 210, b: 120 }
    } else if phase == 2 {
        Rgb8 { r: 80, g: 160, b: 255 }
    } else if phase == 3 {
        Rgb8 { r: 140, g: 200, b: 255 }
    } else if phase == 4 {
        Rgb8 { r: 220, g: 90, b: 40 }
    } else {
        Rgb8 { r: 10, g: 10, b: 55 }
    }
}

/// The colour that opens the given phase.
pub fn palette(phase: u64) -> (c: Rgb8)
    ensures
        c == spec_palette(phase as int),
{
    if phase == 0 {
        Rgb8 { r: 255, g: 100, b: 50 }
    } else if phase == 1 {
        Rgb8 { r: 255, g: 210, b: 120 }
    } else if phase == 2 {
        Rgb8 { r: 80, g: 160, b: 255 }
    } else if phase == 3 {
        Rgb8 { r: 140, g: 200, b: 255 }
    } else if phase == 4 {
        Rgb8 { r: 220, g: 90, b: 40 }
    } else {
        Rgb8 { r: 10, g: 10, b: 55 }
    }
}

/// Linear interpolation from `a` to `b`, `num / den` of the way, rounded down.
pub open spec fn spec_mix(a: int, b: int, num: int, den: int) -> int {
    (a * (den - num) + b * num) / den
}

/// The time of day: the clock taken modulo a full day.
pub open spec fn day_time(t: int) -> int {
    t % (SKY_TOTAL_US as int)
}

/// The phase of the day (0 dawn to 5 night).
pub open spec fn day_phase(t: int) -> int {
    day_time(t) / (SKY_PHASE_US as int)
}

/// Time elapsed since the current phase began.
pub open spec fn phase_elapsed(t: int) -> int {
    day_time(t) % (SKY_PHASE_US as int)
}

/// The sky's colour: the colour of the current phase blended toward that of
/// the next one as the phase elapses (night blends back into dawn).
pub open spec fn spec_sky_color(t: int) -> Rgb8 {
    let from = spec_palette(day_phase(t));
    let to = spec_palette((day_phase(t) + 1) % 6);
    let num = phase_elapsed(t);
    let den = SKY_PHASE_US as int;
    Rgb8 {
        r: spec_mix(from.r as int, to.r as int, num, den) as u8,
        g: spec_mix(from.g as int, to.g as int, num, den) as u8,
        b: spec_mix(from.b as int, to.b as int, num, den) as u8,
    }
}

proof fn lemma_mix_bounds(a: int, b: int, num: int, den: int)
    requires
        0 <= a <= 255,
        0 <= b <= 255,
        0 <= num < den,
    ensures
        0 <= spec_mix(a, b, num, den) <= 255,
{
    assert(0 <= a * (den - num) + b * num <= 255 * den) by (nonlinear_arith)
        requires
            0 <= a <= 255,
            0 <= b <= 255,
            0 <= num < den,
    ;
    assert(0 <= (a * (den - num) + b * num) / den <= 255) by (nonlinear_arith)
        requires
            0 <= a * (den - num) + b * num <= 255 * den,
            den > 0,
    ;
}

fn mix_channel(a: u8, b: u8, num: u64) -> (c: u8)
    requires
        num < SKY_PHASE_US,
    ensures
        c == spec_mix(a as int, b as int, num as int, SKY_PHASE_US as int),
{
    proof {
        lemma_mix_bounds(a as int, b as int, num as int, SKY_PHASE_US as int);
    }
    assert((a as u64) * (SKY_PHASE_US - num) <= 255 * SKY_PHASE_US) by (nonlinear_arith)
        requires
            a <= 255,
            num < SKY_PHASE_US,
    ;
    assert((b as u64) * num <= 255 * SKY_PHASE_US) by (nonlinear_arith)
        requires
            b <= 255,
            num < SKY_PHASE_US,
    ;
    let total: u64 = (a as u64) * (SKY_PHASE_US - num) + (b as u64) * num;
    (total / SKY_PHASE_US) as u8
}

/// The sky's background colour at the given time on the sky clock.
pub fn sky_bg_color_at(sky_time_us: u64) -> (c: Rgb8)
    ensures
        c == spec_sky_color(sky_time_us as int),
{
    let t = sky_time_us % SKY_TOTAL_US;
    let phase = t / SKY_PHASE_US;
    let elapsed = t % SKY_PHASE_US;
    assert(phase < 6) by (nonlinear_arith)
        requires
            t < 180_000_000,
            phase == t / 30_000_000,
    ;
    let from = palette(phase);
    let to = palette((phase + 1) % 6);
    Rgb8 {
        r: mix_channel(from.r, to.r, elapsed),
        g: mix_channel(from.g, to.g, elapsed),
        b: mix_channel(from.b, to.b, elapsed),
    }
}

/// At the very start of a phase the sky shows that phase's colour unblended.
proof fn lemma_phase_start(t: int, k: int)
    requires
        0 <= k < 6,
        day_time(t) == k * 30_000_000,
    ensures
        spec_sky_color(t) == spec_palette(k),
{
    assert(day_phase(t) == k);
    assert(phase_elapsed(t) == 0);
    let from = spec_palette(k);
    let to = spec_palette((k + 1) % 6);
    assert forall|a: int, b: int| 0 <= a <= 255 implies #[trigger] spec_mix(a, b, 0, 30_000_000) == a by {
        vstd::arithmetic::div_mod::lemma_div_multiples_vanish(a, 30_000_000);
        assert(a * (30_000_000 - 0) + b * 0 == 30_000_000 * a) by (nonlinear_arith);
    }
    assert(spec_mix(from.r as int, to.r as int, 0, 30_000_000) == from.r);
    assert(spec_mix(from.g as int, to.g as int, 0, 30_000_000) == from.g);
    assert(spec_mix(from.b as int, to.b as int, 0, 30_000_000) == from.b);
}

/// Each phase of every day opens with its own colour: dawn (255, 100, 50),
/// morning (255, 210, 120), noon (80, 160, 255), afternoon (140, 200, 255),
/// dusk (220, 90, 40) and night (10, 10, 55), the phases starting every
/// 30 seconds from the start of a 180-second day.
pub proof fn lemma_phases_open_with_their_colours(day: nat)
    ensures
        spec_sky_color(day as int * 180_000_000) == (Rgb8 { r: 255, g: 100, b: 50 }),
        spec_sky_color(day as int * 180_000_000 + 30_000_000) == (Rgb8 { r: 255, g: 210, b: 120 }),
        spec_sky_color(day as int * 180_000_000 + 60_000_000) == (Rgb8 { r: 80, g: 160, b: 255 }),
        spec_sky_color(day as int * 180_000_000 + 90_000_000) == (Rgb8 { r: 140, g: 200, b: 255 }),
        spec_sky_color(day as int * 180_000_000 + 120_000_000) == (Rgb8 { r: 220, g: 90, b: 40 }),
        spec_sky_color(day as int * 180_000_000 + 150_000_000) == (Rgb8 { r: 10, g: 10, b: 55 }),
{
    assert forall|k: int| 0 <= k < 6 implies #[trigger] spec_sky_color(
        day as int * 180_000_000 + k * 30_000_000,
    ) == spec_palette(k) by {
        vstd::arithmetic::div_mod::lemma_mod_multiples_vanish(
            day as int,
            k * 30_000_000,
            180_000_000,
        );
        assert(180_000_000 * day == day * 180_000_000) by (nonlinear_arith);
        lemma_phase_start(day as int * 180_000_000 + k * 30_000_000, k);
    }
    assert(spec_sky_color(day as int * 180_000_000 + 0 * 30_000_000) == spec_palette(0));
    assert(spec_sky_color(day as int * 180_000_000 + 1 * 30_000_000) == spec_palette(1));
    assert(spec_sky_color(day as int * 180_000_000 + 2 * 30_000_000) == spec_palette(2));
    assert(spec_sky_color(day as int * 180_000_000 + 3 * 30_000_000) == spec_palette(3));
    assert(spec_sky_color(day as int * 180_000_000 + 4 * 30_000_000) == spec_palette(4));
    assert(spec_sky_color(day as int * 180_000_000 + 5 * 30_000_000) == spec_palette(5));
}

/// How strongly the stars shine, out of `SKY_PHASE_US`: fully at night,
/// fading out through dawn, fading in through dusk, not at all by day.
pub open spec fn star_weight(t: int) -> int {
    let phase = day_phase(t);
    if phase == 5 {
        SKY_PHASE_US as int
    } else if phase == 0 {
        SKY_PHASE_US - phase_elapsed(t)
    } else if phase == 4 {
        phase_elapsed(t)
    } else {
        0
    }
}

/// The stars' brightness (0 to 200) when they shine above a twentieth of full strength.
pub open spec fn spec_stars(t: int) -> Option<u8> {
    if 20 * star_weight(t) > SKY_PHASE_US {
        Some((200 * star_weight(t) / (SKY_PHASE_US as int)) as u8)
    } else {
        None
    }
}

/// The sun crosses from column 5 to column 74 over the five day phases, and
/// hides behind overcast (weather 3 and up); light clouds (weather 2) dim it.
pub open spec fn spec_sun(t: int, weather: int) -> Option<SkyBody> {
    if day_phase(t) < 5 && weather < 3 {
        Some(
            SkyBody {
                x: (5 + 69 * day_time(t) / (5 * SKY_PHASE_US as int)) as i32,
                dimmed: weather == 2,
            },
        )
    } else {
        None
    }
}

/// The moon crosses from column 5 to column 74 over the night and the dawn,
/// and hides and dims as the sun does.
pub open spec fn spec_moon(t: int, weather: int) -> Option<SkyBody> {
    let phase = day_phase(t);
    if (phase == 5 || phase == 0) && weather < 3 {
        let elapsed = if phase == 5 {
            phase_elapsed(t)
        } else {
            SKY_PHASE_US + phase_elapsed(t)
        };
        Some(
            SkyBody {
                x: (5 + 69 * elapsed / (2 * SKY_PHASE_US as int)) as i32,
                dimmed: weather == 2,
            },
        )
    } else {
        None
    }
}

/// The whole sky at a time of day and a weather.
pub open spec fn spec_sky_bodies(t: int, weather: int) -> SkyBodies {
    SkyBodies { stars: spec_stars(t), sun: spec_sun(t, weather), moon: spec_moon(t, weather) }
}

/// Where the stars, the sun and the moon are at the given time on the sky
/// clock, under the given weather.
pub fn sky_bodies(sky_time_us: u64, weather_state: u8) -> (bodies: SkyBodies)
    ensures
        bodies == spec_sky_bodies(sky_time_us as int, weather_state as int),
{
    let t = sky_time_us % SKY_TOTAL_US;
    let phase = t / SKY_PHASE_US;
    let elapsed = t % SKY_PHASE_US;
    assert(phase < 6) by (nonlinear_arith)
        requires
            t < 180_000_000,
            phase == t / 30_000_000,
    ;
    let weight: u64 = if phase == 5 {
        SKY_PHASE_US
    } else if phase == 0 {
        SKY_PHASE_US - elapsed
    } else if phase == 4 {
        elapsed
    } else {
        0
    };
    let stars = if 20 * weight > SKY_PHASE_US {
        assert(200 * weight / 30_000_000 <= 200) by (nonlinear_arith)
            requires
                weight <= 30_000_000,
        ;
        Some((200 * weight / SKY_PHASE_US) as u8)
    } else {
        None
    };
    let sun = if phase < 5 && weather_state < 3 {
        assert(69 * t / 150_000_000 <= 82) by (nonlinear_arith)
            requires
                t < 180_000_000,
        ;
        Some(SkyBody { x: (5 + 69 * t / (5 * SKY_PHASE_US)) as i32, dimmed: weather_state == 2 })
    } else {
        None
    };
    let moon = if (phase == 5 || phase == 0) && weather_state < 3 {
        let moon_elapsed = if phase == 5 {
            elapsed
        } else {
            SKY_PHASE_US + elapsed
        };
        assert(69 * moon_elapsed / 60_000_000 <= 69) by (nonlinear_arith)
            requires
                moon_elapsed < 60_000_000,
        ;
        Some(
            SkyBody {
                x: (5 + 69 * moon_elapsed / (2 * SKY_PHASE_US)) as i32,
                dimmed: weather_state == 2,
            },
        )
    } else {
        None
    };
    SkyBodies { stars, sun, moon }
}

/// The sky repeats every day: the colour and the bodies at `t` and at `t`
/// plus a full day are the same.
pub proof fn lemma_sky_is_periodic(t: nat, weather: int)
    ensures
        spec_sky_color(t + SKY_TOTAL_US) == spec_sky_color(t as int),
        spec_sky_bodies(t + SKY_TOTAL_US, weather) == spec_sky_bodies(t as int, weather),
{
    assert((t + 180_000_000) % 180_000_000 == t % 180_000_000) by (nonlinear_arith);
}

/// Stars shine only at night, at dawn and at dusk.
pub proof fn lemma_stars_only_by_night(t: nat)
    ensures
        spec_stars(t as int) is Some ==> (day_phase(t as int) == 5 || day_phase(t as int) == 0
            || day_phase(t as int) == 4),
{
}

/// The sun and the moon are never drawn over each other: when both are up
/// (at dawn) the sun's three columns lie left of the moon's two, and both
/// stay between columns 5 and 74.
pub proof fn lemma_sun_and_moon_apart(t: nat, weather: int)
    ensures
        spec_sun(t as int, weather) matches Some(sun) ==> 5 <= sun.x <= 74,
        spec_moon(t as int, weather) matches Some(moon) ==> 5 <= moon.x <= 74,
        spec_sun(t as int, weather) matches Some(sun) ==> (spec_moon(t as int, weather) matches Some(
            moon,
        ) ==> sun.x + 1 < moon.x),
{
    let d = day_time(t as int);
    let e = phase_elapsed(t as int);
    let p = day_phase(t as int);
    assert(0 <= d < 180_000_000 && p == d / 30_000_000 && e == d % 30_000_000);
    assert(0 <= 69 * d / 150_000_000 <= 82) by (nonlinear_arith)
        requires
            0 <= d < 180_000_000,
    ;
    assert(p < 5 ==> 69 * d / 150_000_000 <= 69) by (nonlinear_arith)
        requires
            0 <= d < 180_000_000,
            p == d / 30_000_000,
    ;
    assert(0 <= 69 * (30_000_000 + e) / 60_000_000 <= 69) by (nonlinear_arith)
        requires
            0 <= e < 30_000_000,
    ;
    assert(0 <= 69 * e / 60_000_000 <= 69) by (nonlinear_arith)
        requires
            0 <= e < 30_000_000,
    ;
    if p == 0 {
        assert(d == e);
        assert(69 * d / 150_000_000 <= 13) by (nonlinear_arith)
            requires
                0 <= d < 30_000_000,
        ;
        assert(69 * (30_000_000 + e) / 60_000_000 >= 34) by (nonlinear_arith)
            requires
                0 <= e,
        ;
    }
}

} // verus!
