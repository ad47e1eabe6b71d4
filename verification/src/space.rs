//! The scenery beyond the atmosphere: where the sun and the planets stand as
//! the dragon crosses the solar system, how big the Earth still is, and the
//! cells that make up a disc. Positions follow straight paths and are
//! rounded toward zero, as a cast to an integer column does.
use crate::tuning::{div_toward_zero, on_screen, SCREEN_HEIGHT, SCREEN_WIDTH};
use vstd::prelude::*;

verus! {

/// A body of the solar-system backdrop: its column, its radius, and whether
/// its name is shown beside it.
#[derive(Clone, Copy, Debug, PartialEq, Eq, Structural)]
pub struct Placed {
    pub x: i32,
    pub r: i32,
    pub label: bool,
}

/// The solar-system backdrop: the sun, and each planet while it passes.
#[derive(Clone, Copy, Debug, PartialEq, Eq, Structural)]
pub struct SolarScene {
    pub sun: Placed,
    pub mars: Option<Placed>,
    pub jupiter: Option<Placed>,
    pub saturn: Option<Placed>,
    pub uranus: Option<Placed>,
    pub neptune: Option<Placed>,
    pub pluto: Option<Placed>,
}

/// `(a - b * k / den) / scale`, rounded toward zero: a value that glides from
/// `a / scale` by `b / scale` over `den` steps, after `k` of them.
pub open spec fn spec_glide(a: int, b: int, k: int, den: int, scale: int) -> int {
    div_toward_zero(a * den - b * k, den * scale)
}

/// A glide that never falls below `floor`.
pub open spec fn spec_glide_min(a: int, b: int, k: int, den: int, scale: int, floor: int) -> int {
    if spec_glide(a, b, k, den, scale) > floor {
        spec_glide(a, b, k, den, scale)
    } else {
        floor
    }
}

fn glide(a: i32, b: i32, k: i32, den: i32, scale: i32) -> (v: i32)
    requires
        0 <= a <= 200,
        0 <= b <= 200,
        0 <= k <= 1000,
        1 <= den <= 1000,
        1 <= scale <= 2,
    ensures
        v == spec_glide(a as int, b as int, k as int, den as int, scale as int),
{
    assert(-200_000 <= a * den - b * k <= 200_000) by (nonlinear_arith)
        requires
            0 <= a <= 200,
            0 <= b <= 200,
            0 <= k <= 1000,
            1 <= den <= 1000,
    ;
    assert(1 <= den * scale <= 2000) by (nonlinear_arith)
        requires
            1 <= den <= 1000,
            1 <= scale <= 2,
    ;
    assert(0 <= a * den <= 200_000 && 0 <= b * k <= 200_000) by (nonlinear_arith)
        requires
            0 <= a <= 200,
            0 <= b <= 200,
            0 <= k <= 1000,
            1 <= den <= 1000,
    ;
    let num = a * den - b * k;
    let q = num / (den * scale);
    assert(-200_000 <= q <= 200_000) by (nonlinear_arith)
        requires
            -200_000 <= num <= 200_000,
            1 <= den * scale,
            q == div_toward_zero(num as int, (den * scale) as int),
    ;
    q
}

fn glide_min(a: i32, b: i32, k: i32, den: i32, scale: i32, floor: i32) -> (v: i32)
    requires
        0 <= a <= 200,
        0 <= b <= 200,
        0 <= k <= 1000,
        1 <= den <= 1000,
        1 <= scale <= 2,
    ensures
        v == spec_glide_min(a as int, b as int, k as int, den as int, scale as int, floor as int),
{
    let v = glide(a, b, k, den, scale);
    if v > floor {
        v
    } else {
        floor
    }
}

/// A planet that is on stage while `k` (the pipes since it appeared) is
/// below `span`: it glides from column `x0` by `dx` and shrinks from radius
/// `r0` by `dr` (both over `scale`) down to `r_min`, and is drawn while its
/// column lies strictly between `-margin` and `SCREEN_WIDTH + margin`; its
/// name shows while `k` is below `label_hundredths` hundredths of `span`.
pub open spec fn spec_planet(
    k: int,
    span: int,
    x0: int,
    dx: int,
    r0: int,
    dr: int,
    scale: int,
    r_min: int,
    margin: int,
    label_hundredths: int,
) -> Option<Placed> {
    let x = spec_glide(x0, dx, k, span, 1);
    if 0 <= k < span && -margin < x < SCREEN_WIDTH + margin {
        Some(
            Placed {
                x: x as i32,
                r: spec_glide_min(r0, dr, k, span, scale, r_min) as i32,
                label: 100 * k < label_hundredths * span,
            },
        )
    } else {
        None
    }
}

fn planet(
    k: i32,
    span: i32,
    x0: i32,
    dx: i32,
    r0: i32,
    dr: i32,
    scale: i32,
    r_min: i32,
    margin: i32,
    label_hundredths: i32,
) -> (p: Option<Placed>)
    requires
        1 <= span <= 1000,
        -1000 <= k <= 1000,
        0 <= x0 <= 200,
        0 <= dx <= 200,
        0 <= r0 <= 200,
        0 <= dr <= 200,
        1 <= scale <= 2,
        0 <= margin <= 100,
        0 <= label_hundredths <= 100,
    ensures
        p == spec_planet(
            k as int,
            span as int,
            x0 as int,
            dx as int,
            r0 as int,
            dr as int,
            scale as int,
            r_min as int,
            margin as int,
            label_hundredths as int,
        ),
{
    if k < 0 || k >= span {
        return None;
    }
    assert(0 <= label_hundredths * span <= 100_000) by (nonlinear_arith)
        requires
            0 <= label_hundredths <= 100,
            1 <= span <= 1000,
    ;
    let x = glide(x0, dx, k, span, 1);
    if -margin < x && x < SCREEN_WIDTH + margin {
        Some(
            Placed {
                x,
                r: glide_min(r0, dr, k, span, scale, r_min),
                label: 100 * k < label_hundredths * span,
            },
        )
    } else {
        None
    }
}

/// The solar-system backdrop after `progress` of its 1000 pipes: the sun
/// drifts from column 72 toward 47 and shrinks from radius 6 toward 2.5;
/// Mars passes during the first 130 pipes, Jupiter from 90 to 420, Saturn
/// from 270 to 600, Uranus from 470 to 760, Neptune from 670 to 920 and
/// Pluto (a dot) from 870 on.
pub open spec fn spec_solar_scene(progress: int) -> SolarScene {
    SolarScene {
        sun: Placed {
            x: spec_glide(72, 25, progress, 1000, 1) as i32,
            r: spec_glide_min(12, 7, progress, 1000, 2, 1) as i32,
            label: false,
        },
        mars: spec_planet(progress, 130, 75, 90, 4, 2, 1, 1, 6, 40),
        jupiter: spec_planet(progress - 90, 330, 76, 95, 10, 4, 1, 2, 18, 35),
        saturn: spec_planet(progress - 270, 330, 78, 100, 8, 3, 1, 2, 22, 30),
        uranus: spec_planet(progress - 470, 290, 74, 88, 5, 2, 1, 1, 10, 30),
        neptune: spec_planet(progress - 670, 250, 72, 82, 8, 3, 2, 1, 8, 30),
        pluto: spec_pluto(progress),
    }
}

/// Pluto: from 870 pipes on it glides from column 70 by 65 over 130 pipes,
/// drawn while on screen, named during its first 65 pipes.
pub open spec fn spec_pluto(progress: int) -> Option<Placed> {
    let k = progress - 870;
    let x = spec_glide(70, 65, k, 130, 1);
    if k >= 0 && 0 < x < SCREEN_WIDTH {
        Some(Placed { x: x as i32, r: 0, label: 100 * k < 50 * 130 })
    } else {
        None
    }
}

/// Where the sun and the planets stand after `progress` pipes of the solar system.
pub fn solar_scene(progress: i32) -> (scene: SolarScene)
    requires
        0 <= progress < 1000,
    ensures
        scene == spec_solar_scene(progress as int),
{
    let k = progress - 870;
    let pluto = if k >= 0 {
        let x = glide(70, 65, k, 130, 1);
        if 0 < x && x < SCREEN_WIDTH {
            Some(Placed { x, r: 0, label: 100 * k < 50 * 130 })
        } else {
            None
        }
    } else {
        None
    };
    SolarScene {
        sun: Placed {
            x: glide(72, 25, progress, 1000, 1),
            r: glide_min(12, 7, progress, 1000, 2, 1),
            label: false,
        },
        mars: planet(progress, 130, 75, 90, 4, 2, 1, 1, 6, 40),
        jupiter: planet(progress - 90, 330, 76, 95, 10, 4, 1, 2, 18, 35),
        saturn: planet(progress - 270, 330, 78, 100, 8, 3, 1, 2, 22, 30),
        uranus: planet(progress - 470, 290, 74, 88, 5, 2, 1, 1, 10, 30),
        neptune: planet(progress - 670, 250, 72, 82, 8, 3, 2, 1, 8, 30),
        pluto,
    }
}

/// The Earth's radius as it shrinks away: 13 rows, less 13 per 100 pipes
/// of the orbit stretch, rounded down.
pub open spec fn spec_earth_radius(progress: int) -> int {
    spec_glide(13, 13, progress, 100, 1)
}

/// The Earth's radius after `progress` of the orbit stretch's 100 pipes.
pub fn earth_radius(progress: i32) -> (r: i32)
    requires
        0 <= progress <= 100,
    ensures
        r == spec_earth_radius(progress as int),
        0 <= r <= 13,
{
    let r = glide(13, 13, progress, 100, 1);
    assert(0 <= r <= 13) by (nonlinear_arith)
        requires
            0 <= progress <= 100,
            r == div_toward_zero(1300 - 13 * progress, 100),
    ;
    r
}

/// Half the width of row `dy` of a disc of radius `r`: the integer square
/// root of `r * r - dy * dy` (nothing outside the disc).
pub open spec fn is_half_width(r: int, dy: int, w: int) -> bool {
    let n = r * r - dy * dy;
    if n <= 0 {
        w == 0
    } else {
        w >= 0 && w * w <= n < (w + 1) * (w + 1)
    }
}

/// The integer square root of `n`: the largest `w` whose square is at most `n`.
pub open spec fn spec_isqrt(n: nat) -> nat
    decreases n,
{
    if n == 0 {
        0
    } else {
        let w = spec_isqrt((n - 1) as nat);
        if (w + 1) * (w + 1) <= n {
            w + 1
        } else {
            w
        }
    }
}

proof fn lemma_isqrt(n: nat)
    ensures
        (spec_isqrt(n) as int) * (spec_isqrt(n) as int) <= n < (spec_isqrt(n) as int + 1) * (
        spec_isqrt(n) as int + 1),
    decreases n,
{
    if n > 0 {
        lemma_isqrt((n - 1) as nat);
        let w = spec_isqrt((n - 1) as nat) as int;
        assert(w * w <= n - 1 < (w + 1) * (w + 1));
        if (w + 1) * (w + 1) <= n {
            assert(spec_isqrt(n) == w + 1);
            assert(n < (w + 2) * (w + 2)) by (nonlinear_arith)
                requires
                    n - 1 < (w + 1) * (w + 1),
                    w >= 0,
            ;
            assert((w + 1) * (w + 1) <= n < (w + 2) * (w + 2));
        } else {
            assert(spec_isqrt(n) == w);
            assert(w * w <= n < (w + 1) * (w + 1));
        }
    } else {
        assert(spec_isqrt(n) == 0);
    }
}

/// The half width of row `dy` of a disc of radius `r` (see `is_half_width`).
pub open spec fn spec_half_width(r: int, dy: int) -> int {
    if r * r - dy * dy <= 0 {
        0
    } else {
        spec_isqrt((r * r - dy * dy) as nat) as int
    }
}

proof fn lemma_half_width_holds(r: int, dy: int)
    ensures
        is_half_width(r, dy, spec_half_width(r, dy)),
{
    if r * r - dy * dy > 0 {
        lemma_isqrt((r * r - dy * dy) as nat);
    }
}

proof fn lemma_half_width_unique(r: int, dy: int, w1: int, w2: int)
    requires
        is_half_width(r, dy, w1),
        is_half_width(r, dy, w2),
    ensures
        w1 == w2,
{
    let n = r * r - dy * dy;
    if n > 0 {
        if w1 < w2 {
            assert((w1 + 1) * (w1 + 1) <= w2 * w2) by (nonlinear_arith)
                requires
                    0 <= w1 < w2,
            ;
        } else if w2 < w1 {
            assert((w2 + 1) * (w2 + 1) <= w1 * w1) by (nonlinear_arith)
                requires
                    0 <= w2 < w1,
            ;
        }
    }
}

proof fn lemma_half_width_is(r: int, dy: int, w: int)
    requires
        is_half_width(r, dy, w),
    ensures
        spec_half_width(r, dy) == w,
{
    let c = spec_half_width(r, dy);
    lemma_half_width_holds(r, dy);
    lemma_half_width_unique(r, dy, c, w);
}

/// The largest radius whose square fits in an `i32`.
pub const MAX_DISC_RADIUS: i32 = 46_340;

/// Half the width, in cells, of row `dy` of a disc of radius `r`.
pub fn disc_half_width(r: i32, dy: i32) -> (w: i32)
    requires
        0 <= r <= MAX_DISC_RADIUS,
    ensures
        is_half_width(r as int, dy as int, w as int),
        w == spec_half_width(r as int, dy as int),
        0 <= w <= r,
{
    let r64 = r as i64;
    let dy64 = dy as i64;
    assert(0 <= r64 * r64 <= 46_340 * 46_340) by (nonlinear_arith)
        requires
            0 <= r64 <= 46_340,
    ;
    assert(0 <= dy64 * dy64 <= 2_147_483_648 * 2_147_483_648) by (nonlinear_arith)
        requires
            -2_147_483_648 <= dy64 <= 2_147_483_647,
    ;
    let n: i64 = r64 * r64 - dy64 * dy64;
    if n <= 0 {
        proof {
            lemma_half_width_is(r as int, dy as int, 0);
        }
        return 0;
    }
    let mut lo: i64 = 0;
    let mut hi: i64 = r64 + 1;
    assert(n < hi * hi) by (nonlinear_arith)
        requires
            n <= r64 * r64,
            hi == r64 + 1,
            r64 >= 0,
    ;
    while hi - lo > 1
        invariant
            0 <= lo < hi <= r64 + 1,
            r64 <= 46_340,
            lo * lo <= n < hi * hi,
            n == r64 * r64 - dy64 * dy64,
        decreases hi - lo,
    {
        let mid = lo + (hi - lo) / 2;
        assert(0 <= mid * mid <= 46_341 * 46_341) by (nonlinear_arith)
            requires
                0 <= mid <= 46_341,
        ;
        if mid * mid <= n {
            lo = mid;
        } else {
            hi = mid;
        }
    }
    assert(lo + 1 == hi);
    assert(lo <= r64) by (nonlinear_arith)
        requires
            lo * lo <= n,
            n <= r64 * r64,
            0 <= lo,
            0 <= r64,
    ;
    proof {
        lemma_half_width_is(r as int, dy as int, lo as int);
    }
    lo as i32
}

/// What a cell of the Earth's disc shows.
#[derive(Clone, Copy, Debug, PartialEq, Eq, Structural)]
pub enum EarthCell {
    Ice,
    Shade,
    Land,
    Ocean,
}

/// A cell of the Earth's disc: ice caps in the top and bottom 12% of rows,
/// night shade on the last third of each row's right half, and land or
/// ocean by a fixed hash of the cell.
pub open spec fn spec_earth_cell(r: int, cx: int, dx: int, dy: int, rw: int) -> EarthCell {
    if 100 * (dy + r) < 24 * r || 100 * (dy + r) > 176 * r {
        EarthCell::Ice
    } else if dx > div_toward_zero(rw * 2, 3) {
        EarthCell::Shade
    } else if (if dx + dy * 7 + cx >= 0 {
        dx + dy * 7 + cx
    } else {
        -(dx + dy * 7 + cx)
    }) % 13 < 5 {
        EarthCell::Land
    } else {
        EarthCell::Ocean
    }
}

/// What the Earth shows at offset (`dx`, `dy`) from its centre column `cx`,
/// on a row whose half width is `rw`.
pub fn earth_cell(r: i32, cx: i32, dx: i32, dy: i32, rw: i32) -> (c: EarthCell)
    requires
        1 <= r <= MAX_DISC_RADIUS,
        -r <= dy <= r,
        0 <= rw <= r,
        i32::MIN < dx + dy * 7 + cx <= i32::MAX,
    ensures
        c == spec_earth_cell(r as int, cx as int, dx as int, dy as int, rw as int),
{
    let s = dx as i64 + (dy as i64) * 7 + cx as i64;
    let hash = if s >= 0 {
        s
    } else {
        -s
    } % 13;
    let r64 = r as i64;
    let dy64 = dy as i64;
    if 100 * (dy64 + r64) < 24 * r64 || 100 * (dy64 + r64) > 176 * r64 {
        EarthCell::Ice
    } else if dx > rw * 2 / 3 {
        EarthCell::Shade
    } else if hash < 5 {
        EarthCell::Land
    } else {
        EarthCell::Ocean
    }
}

/// Which of Jupiter's five colour bands row `dy` of a disc of radius `r` falls in.
pub open spec fn spec_jupiter_band(r: int, dy: int) -> int {
    let b = ((dy + r) * 5) / (2 * r + 1);
    if b < 4 {
        b
    } else {
        4
    }
}

/// The colour band (0 to 4) of a row of Jupiter.
pub fn jupiter_band(r: i32, dy: i32) -> (b: usize)
    requires
        1 <= r <= MAX_DISC_RADIUS,
        -r <= dy <= r,
    ensures
        b == spec_jupiter_band(r as int, dy as int),
        b < 5,
{
    let b = ((dy + r) * 5) / (2 * r + 1);
    assert(0 <= b) by (nonlinear_arith)
        requires
            0 <= (dy + r) * 5,
            2 * r + 1 > 0,
            b == ((dy + r) * 5) / (2 * r + 1),
    ;
    if b < 4 {
        b as usize
    } else {
        4
    }
}

/// Whether every cell within `reach` of `c` has a coordinate that fits in an `i32`.
pub open spec fn fits_around(c: int, reach: int) -> bool {
    i32::MIN <= c - reach && c + reach <= i32::MAX
}

/// A body centred at (`cx`, `cy`) whose cells lie within `reach` of its
/// centre: the reach's square and every coordinate fit in an `i32`.
pub open spec fn body_fits(cx: int, cy: int, reach: int) -> bool {
    reach <= MAX_DISC_RADIUS && fits_around(cx, reach) && fits_around(cy, reach)
}

/// The absolute value.
pub open spec fn abs(a: int) -> int {
    if a < 0 {
        -a
    } else {
        a
    }
}

/// Whether offset (`dx`, `dy`) from a disc's centre is a cell of the disc
/// of radius `r`: within its rows, and within the half width of its row.
pub open spec fn in_disc(r: int, dx: int, dy: int) -> bool {
    r > 0 && abs(dy) <= r && abs(dx) <= spec_half_width(r, dy)
}

/// Whether offset (`dx`, `dy`) is a cell of the disc of radius `r`, and the
/// half width of its row when it is.
fn disc_row(r: i32, dx: i64, dy: i64) -> (row: Option<i64>)
    requires
        r <= MAX_DISC_RADIUS,
    ensures
        row is Some <==> in_disc(r as int, dx as int, dy as int),
        row matches Some(w) ==> w == spec_half_width(r as int, dy as int) && 0 <= w <= r,
{
    if r <= 0 || dy < -(r as i64) || dy > r as i64 {
        return None;
    }
    let w = disc_half_width(r, dy as i32) as i64;
    if -w <= dx && dx <= w {
        Some(w)
    } else {
        None
    }
}

/// A disc's cells lie within its radius: `dx * dx + dy * dy <= r * r`.
proof fn lemma_disc_within_radius(r: int, dx: int, dy: int)
    requires
        in_disc(r, dx, dy),
    ensures
        dx * dx + dy * dy <= r * r,
{
    let w = spec_half_width(r, dy);
    lemma_half_width_holds(r, dy);
    assert(dx * dx <= w * w) by (nonlinear_arith)
        requires
            abs(dx) <= w,
            abs(dx) == if dx < 0 {
                -dx
            } else {
                dx
            },
    ;
    if r * r - dy * dy <= 0 {
        assert(dy * dy <= r * r) by (nonlinear_arith)
            requires
                abs(dy) <= r,
                abs(dy) == if dy < 0 {
                    -dy
                } else {
                    dy
                },
        ;
    }
}

/// What a cell of the Earth picture shows: its surface, or the glow of the
/// atmosphere around it.
#[derive(Clone, Copy, Debug, PartialEq, Eq, Structural)]
pub enum EarthPixel {
    Surface(EarthCell),
    Glow,
}

/// The Earth of radius `r` centred at (`cx`, `cy`), at cell (`x`, `y`):
/// nothing off screen or when the radius is not positive; the disc's cells
/// show the surface; the outermost cell on each side of every row of the
/// one-larger disc glows where it lies outside the Earth's radius.
pub open spec fn spec_earth_pixel(r: int, cx: int, cy: int, x: int, y: int) -> Option<EarthPixel> {
    let dx = x - cx;
    let dy = y - cy;
    if !on_screen(x, y) || r <= 0 {
        None
    } else if in_disc(r, dx, dy) {
        Some(EarthPixel::Surface(spec_earth_cell(r, cx, dx, dy, spec_half_width(r, dy))))
    } else if abs(dy) <= r + 1 && abs(dx) == spec_half_width(r + 1, dy) && dx * dx + dy * dy > r
        * r {
        Some(EarthPixel::Glow)
    } else {
        None
    }
}

/// What the Earth of radius `r` centred at (`cx`, `cy`) shows at cell (`x`, `y`).
pub fn earth_pixel(r: i32, cx: i32, cy: i32, x: i32, y: i32) -> (p: Option<EarthPixel>)
    requires
        r > 0 ==> body_fits(cx as int, cy as int, r + 1),
    ensures
        p == spec_earth_pixel(r as int, cx as int, cy as int, x as int, y as int),
        p is Some ==> on_screen(x as int, y as int) && (x - cx) * (x - cx) + (y - cy) * (y - cy)
            <= (r + 1) * (r + 1),
{
    if x < 0 || x >= SCREEN_WIDTH || y < 0 || y >= SCREEN_HEIGHT || r <= 0 {
        return None;
    }
    let dx = x as i64 - cx as i64;
    let dy = y as i64 - cy as i64;
    match disc_row(r, dx, dy) {
        Some(rw) => {
            proof {
                lemma_disc_within_radius(r as int, dx as int, dy as int);
                assert(r * r <= (r + 1) * (r + 1)) by (nonlinear_arith)
                    requires
                        r > 0,
                ;
            }
            return Some(
                EarthPixel::Surface(earth_cell(r, cx, dx as i32, dy as i32, rw as i32)),
            );
        },
        None => {},
    }
    match disc_row(r + 1, dx, dy) {
        Some(rw2) => {
            assert(-46_340 <= dx <= 46_340 && -46_340 <= dy <= 46_340);
            assert(0 <= dx * dx <= 46_340 * 46_340 && 0 <= dy * dy <= 46_340 * 46_340 && 0 <= (
            r as i64) * (r as i64) <= 46_340 * 46_340) by (nonlinear_arith)
                requires
                    -46_340 <= dx <= 46_340,
                    -46_340 <= dy <= 46_340,
                    0 < r <= 46_340,
            ;
            if (dx == rw2 || dx == -rw2) && dx * dx + dy * dy > (r as i64) * (r as i64) {
                proof {
                    lemma_disc_within_radius((r + 1) as int, dx as int, dy as int);
                }
                Some(EarthPixel::Glow)
            } else {
                None
            }
        },
        None => {
            proof {
                if abs(dy as int) <= r + 1 && abs(dx as int) == spec_half_width(r + 1, dy as int) {
                    assert(in_disc((r + 1) as int, dx as int, dy as int));
                }
            }
            None
        },
    }
}

/// What a cell of Jupiter shows: one of its five colour bands, shaded on the
/// right of each row, or the Great Red Spot.
#[derive(Clone, Copy, Debug, PartialEq, Eq, Structural)]
pub enum JupiterPixel {
    Band { band: usize, shaded: bool },
    Spot,
}

/// Jupiter of radius `r` centred at (`cx`, `cy`), at cell (`x`, `y`):
/// nothing off screen or when the radius is not positive; on a planet wider
/// than 5 the Great Red Spot, 9 cells by 5 centred a third of the radius left
/// of and a quarter below the centre, covers the disc; elsewhere the disc
/// shows the band of its row, shaded on the last third of the row's right half.
pub open spec fn spec_jupiter_pixel(r: int, cx: int, cy: int, x: int, y: int) -> Option<
    JupiterPixel,
> {
    let dx = x - cx;
    let dy = y - cy;
    if !on_screen(x, y) || r <= 0 {
        None
    } else if r > 5 && abs(x - (cx - r / 3)) <= 4 && abs(y - (cy + r / 4)) <= 2 {
        Some(JupiterPixel::Spot)
    } else if in_disc(r, dx, dy) {
        Some(
            JupiterPixel::Band {
                band: spec_jupiter_band(r, dy) as usize,
                shaded: dx > (spec_half_width(r, dy) * 2) / 3,
            },
        )
    } else {
        None
    }
}

/// What Jupiter of radius `r` centred at (`cx`, `cy`) shows at cell (`x`, `y`).
pub fn jupiter_pixel(r: i32, cx: i32, cy: i32, x: i32, y: i32) -> (p: Option<JupiterPixel>)
    requires
        r > 0 ==> body_fits(cx as int, cy as int, r as int),
    ensures
        p == spec_jupiter_pixel(r as int, cx as int, cy as int, x as int, y as int),
        p is Some ==> on_screen(x as int, y as int),
        p matches Some(JupiterPixel::Band { band, shaded }) ==> band < 5,
{
    if x < 0 || x >= SCREEN_WIDTH || y < 0 || y >= SCREEN_HEIGHT || r <= 0 {
        return None;
    }
    let sx = cx as i64 - (r / 3) as i64;
    let sy = cy as i64 + (r / 4) as i64;
    let (x64, y64) = (x as i64, y as i64);
    if r > 5 && -4 <= x64 - sx && x64 - sx <= 4 && -2 <= y64 - sy && y64 - sy <= 2 {
        return Some(JupiterPixel::Spot);
    }
    let dx = x64 - cx as i64;
    let dy = y64 - cy as i64;
    match disc_row(r, dx, dy) {
        Some(rw) => Some(
            JupiterPixel::Band { band: jupiter_band(r, dy as i32), shaded: dx > rw * 2 / 3 },
        ),
        None => None,
    }
}

/// What a cell of the sun shows: its hot core, its outer rim, or its corona.
#[derive(Clone, Copy, Debug, PartialEq, Eq, Structural)]
pub enum SunPixel {
    Core,
    Outer,
    Corona,
}

/// The sun of radius `r` centred at (`cx`, `cy`), at cell (`x`, `y`):
/// nothing off screen or when the radius is not positive; the disc is core
/// within two thirds of the squared radius and rim beyond; the cells of the
/// disc two larger that lie outside the radius are corona.
pub open spec fn spec_sun_pixel(r: int, cx: int, cy: int, x: int, y: int) -> Option<SunPixel> {
    let dx = x - cx;
    let dy = y - cy;
    let d2 = dx * dx + dy * dy;
    if !on_screen(x, y) || r <= 0 {
        None
    } else if in_disc(r, dx, dy) {
        Some(
            if d2 < (r * r * 2) / 3 {
                SunPixel::Core
            } else {
                SunPixel::Outer
            },
        )
    } else if in_disc(r + 2, dx, dy) && d2 > r * r && d2 <= (r + 2) * (r + 2) {
        Some(SunPixel::Corona)
    } else {
        None
    }
}

/// What the sun of radius `r` centred at (`cx`, `cy`) shows at cell (`x`, `y`).
pub fn sun_pixel(r: i32, cx: i32, cy: i32, x: i32, y: i32) -> (p: Option<SunPixel>)
    requires
        r > 0 ==> body_fits(cx as int, cy as int, r + 2),
    ensures
        p == spec_sun_pixel(r as int, cx as int, cy as int, x as int, y as int),
        p is Some ==> on_screen(x as int, y as int),
{
    if x < 0 || x >= SCREEN_WIDTH || y < 0 || y >= SCREEN_HEIGHT || r <= 0 {
        return None;
    }
    let dx = x as i64 - cx as i64;
    let dy = y as i64 - cy as i64;
    match disc_row(r + 2, dx, dy) {
        None => {
            proof {
                if in_disc(r as int, dx as int, dy as int) {
                    let w = spec_half_width(r as int, dy as int);
                    let w2 = spec_half_width((r + 2) as int, dy as int);
                    lemma_half_width_holds(r as int, dy as int);
                    lemma_half_width_holds((r + 2) as int, dy as int);
                    lemma_half_width_grows(r as int, dy as int, w, w2);
                }
            }
            None
        },
        Some(rw2) => {
            let r64 = r as i64;
            assert(-46_340 <= dx <= 46_340 && -46_340 <= dy <= 46_340);
            assert(0 <= dx * dx <= 46_340 * 46_340 && 0 <= dy * dy <= 46_340 * 46_340) by (
            nonlinear_arith)
                requires
                    -46_340 <= dx <= 46_340,
                    -46_340 <= dy <= 46_340,
            ;
            assert(0 <= r64 * r64 * 2 <= 2 * 46_340 * 46_340) by (nonlinear_arith)
                requires
                    0 < r64 <= 46_340,
            ;
            let d2 = dx * dx + dy * dy;
            match disc_row(r, dx, dy) {
                Some(_) => Some(
                    if d2 < r64 * r64 * 2 / 3 {
                        SunPixel::Core
                    } else {
                        SunPixel::Outer
                    },
                ),
                None => {
                    proof {
                        lemma_disc_within_radius((r + 2) as int, dx as int, dy as int);
                    }
                    if d2 > r64 * r64 {
                        Some(SunPixel::Corona)
                    } else {
                        None
                    }
                },
            }
        },
    }
}

/// A larger disc has rows at least as wide.
proof fn lemma_half_width_grows(r: int, dy: int, w: int, w2: int)
    requires
        r > 0,
        is_half_width(r, dy, w),
        is_half_width(r + 2, dy, w2),
    ensures
        w <= w2,
{
    let n = r * r - dy * dy;
    let n2 = (r + 2) * (r + 2) - dy * dy;
    assert(n <= n2) by (nonlinear_arith)
        requires
            r > 0,
            n == r * r - dy * dy,
            n2 == (r + 2) * (r + 2) - dy * dy,
    ;
    if n > 0 && w > w2 {
        assert((w2 + 1) * (w2 + 1) <= w * w) by (nonlinear_arith)
            requires
                0 <= w2 < w,
        ;
    }
}

/// What a cell of Saturn shows: its body, shaded on the right, or its rings.
#[derive(Clone, Copy, Debug, PartialEq, Eq, Structural)]
pub enum SaturnPixel {
    Body { shaded: bool },
    Ring { dark: bool },
}

/// Saturn of radius `r` centred at (`cx`, `cy`), at cell (`x`, `y`):
/// nothing off screen or when the radius is not positive; the disc shows the
/// body, shaded on the last third of each row's right half; on the centre
/// row and the one above, the rings reach from two cells beyond the radius
/// to below three radii, darker every third column from the centre.
pub open spec fn spec_saturn_pixel(r: int, cx: int, cy: int, x: int, y: int) -> Option<
    SaturnPixel,
> {
    let dx = x - cx;
    let dy = y - cy;
    if !on_screen(x, y) || r <= 0 {
        None
    } else if in_disc(r, dx, dy) {
        Some(SaturnPixel::Body { shaded: dx > (spec_half_width(r, dy) * 2) / 3 })
    } else if (dy == -1 || dy == 0) && r + 1 < abs(dx) < 3 * r {
        Some(SaturnPixel::Ring { dark: abs(dx) % 3 == 0 })
    } else {
        None
    }
}

/// What Saturn of radius `r` centred at (`cx`, `cy`) shows at cell (`x`, `y`).
pub fn saturn_pixel(r: i32, cx: i32, cy: i32, x: i32, y: i32) -> (p: Option<SaturnPixel>)
    requires
        r > 0 ==> body_fits(cx as int, cy as int, r as int) && fits_around(cx as int, 3 * r),
    ensures
        p == spec_saturn_pixel(r as int, cx as int, cy as int, x as int, y as int),
        p is Some ==> on_screen(x as int, y as int),
{
    if x < 0 || x >= SCREEN_WIDTH || y < 0 || y >= SCREEN_HEIGHT || r <= 0 {
        return None;
    }
    let dx = x as i64 - cx as i64;
    let dy = y as i64 - cy as i64;
    match disc_row(r, dx, dy) {
        Some(rw) => Some(SaturnPixel::Body { shaded: dx > rw * 2 / 3 }),
        None => {
            let adx = if dx < 0 {
                -dx
            } else {
                dx
            };
            let r64 = r as i64;
            if (dy == -1 || dy == 0) && r64 + 1 < adx && adx < 3 * r64 {
                Some(SaturnPixel::Ring { dark: adx % 3 == 0 })
            } else {
                None
            }
        },
    }
}

/// What a cell of a plain planet shows: lit, or shaded on the right.
#[derive(Clone, Copy, Debug, PartialEq, Eq, Structural)]
pub enum PlanetPixel {
    Lit,
    Shaded,
}

/// A plain planet of radius `r` centred at (`cx`, `cy`), at cell (`x`, `y`):
/// nothing off screen, outside the disc or when the radius is not positive;
/// shaded on the right half of each row's right half, lit elsewhere.
pub open spec fn spec_planet_pixel(r: int, cx: int, cy: int, x: int, y: int) -> Option<
    PlanetPixel,
> {
    let dx = x - cx;
    let dy = y - cy;
    if !on_screen(x, y) || !in_disc(r, dx, dy) {
        None
    } else if dx > spec_half_width(r, dy) / 2 {
        Some(PlanetPixel::Shaded)
    } else {
        Some(PlanetPixel::Lit)
    }
}

/// What a plain planet of radius `r` centred at (`cx`, `cy`) shows at cell (`x`, `y`).
pub fn planet_pixel(r: i32, cx: i32, cy: i32, x: i32, y: i32) -> (p: Option<PlanetPixel>)
    requires
        r > 0 ==> body_fits(cx as int, cy as int, r as int),
    ensures
        p == spec_planet_pixel(r as int, cx as int, cy as int, x as int, y as int),
        p is Some ==> on_screen(x as int, y as int),
{
    if x < 0 || x >= SCREEN_WIDTH || y < 0 || y >= SCREEN_HEIGHT {
        return None;
    }
    let dx = x as i64 - cx as i64;
    match disc_row(r, dx, y as i64 - cy as i64) {
        Some(rw) => if dx > rw / 2 {
            Some(PlanetPixel::Shaded)
        } else {
            Some(PlanetPixel::Lit)
        },
        None => None,
    }
}

/// The sun stays between columns 47 and 72, with a radius from 2 to 6.
pub proof fn lemma_solar_scene_bounds(progress: int)
    requires
        0 <= progress < 1000,
    ensures
        47 <= spec_solar_scene(progress).sun.x <= 72,
        2 <= spec_solar_scene(progress).sun.r <= 6,
{
    assert(47 <= div_toward_zero(72 * 1000 - 25 * progress, 1000) <= 72) by (nonlinear_arith)
        requires
            0 <= progress < 1000,
    ;
    assert(2 <= div_toward_zero(12 * 1000 - 7 * progress, 2000) <= 6) by (nonlinear_arith)
        requires
            0 <= progress < 1000,
    ;
}

} // verus!
