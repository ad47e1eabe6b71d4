//! A pipe pair with a gap, its collision test and the cells it covers on screen.
use crate::player::Player;
use crate::rng::rng_range;
use crate::tuning::{
    div_toward_zero, gap_size_for, spec_gap_size, PLAYER_SCREEN_COL, SCREEN_HEIGHT, SCREEN_WIDTH,
};
use bracket_lib::prelude::RandomNumberGenerator;
use vstd::prelude::*;

verus! {

/// A pipe pair at column `x` whose gap of `size` cells is centred on row `gap_y`.
#[derive(Clone, Copy, Debug, PartialEq, Eq, Structural)]
pub struct Obstacle {
    pub x: i32,
    pub gap_y: i32,
    pub size: i32,
    pub classic_mode: bool,
}

/// Lowest row on which a gap can be centred.
pub const GAP_CENTRE_MIN: i32 = 10;

/// Rows on which a gap can be centred lie below this one.
pub const GAP_CENTRE_END: i32 = 40;

/// Where a pipe pair lands on screen: the pipe's column, whether its second
/// column is drawn, the rows of its two bodies and of their caps.
/// The top body covers rows `0..top_body_end`, the bottom body
/// `bottom_body_start..SCREEN_HEIGHT`.
#[derive(Clone, Copy, Debug, PartialEq, Eq, Structural)]
pub struct PipeLayout {
    pub column: i32,
    pub second_column: bool,
    pub top_body_end: i32,
    pub top_cap: Option<i32>,
    pub bottom_cap: Option<i32>,
    pub bottom_body_start: i32,
}

impl Obstacle {
    /// Half the gap, rounded toward zero.
    pub open spec fn half_size(&self) -> int {
        div_toward_zero(self.size as int, 2)
    }

    /// Columns the pipe covers: one in classic mode, two on the journey.
    pub open spec fn pipe_width(&self) -> int {
        if self.classic_mode {
            1
        } else {
            2
        }
    }

    /// The first row of the gap.
    pub open spec fn gap_top(&self) -> int {
        self.gap_y - self.half_size()
    }

    /// The last row of the gap.
    pub open spec fn gap_bottom(&self) -> int {
        self.gap_y + self.half_size()
    }

    /// The pipe's extent fits the machine integers with room to spare.
    pub open spec fn in_range(&self) -> bool {
        &&& self.x + self.pipe_width() <= i32::MAX
        &&& self.size >= 0
        &&& self.gap_top() - 1 >= i32::MIN
        &&& self.gap_bottom() + 1 <= i32::MAX
    }

    /// The collision test's arithmetic fits the machine integers: the pipe's
    /// last column and the gap's first and last rows.
    pub open spec fn hit_in_range(&self) -> bool {
        &&& self.x + self.pipe_width() <= i32::MAX
        &&& i32::MIN <= self.gap_top() <= i32::MAX
        &&& i32::MIN <= self.gap_bottom() <= i32::MAX
    }

    /// Whether the dragon at `player` crashes into this pipe: it is in one of
    /// the pipe's columns, above or below the gap.
    pub open spec fn spec_hit(&self, player: Player) -> bool {
        &&& self.x <= player.x < self.x + self.pipe_width()
        &&& (player.y < self.gap_top() || player.y > self.gap_bottom())
    }

    /// A pipe at column `x` whose gap is centred on `gap_y` and sized for the score.
    pub fn with_gap(x: i32, score: i32, classic_mode: bool, gap_y: i32) -> (o: Obstacle)
        requires
            classic_mode ==> 20 - score <= i32::MAX,
        ensures
            o == (Obstacle {
                x,
                gap_y,
                size: spec_gap_size(score as int, classic_mode) as i32,
                classic_mode,
            }),
    {
        Obstacle { x, gap_y, size: gap_size_for(score, classic_mode), classic_mode }
    }

    /// A new pipe at column `x`, sized for the score, with its gap centred on
    /// a random row from 10 to 39.
    pub fn new(x: i32, score: i32, classic_mode: bool, rng: &mut RandomNumberGenerator) -> (o:
        Obstacle)
        requires
            classic_mode ==> 20 - score <= i32::MAX,
        ensures
            o.x == x,
            GAP_CENTRE_MIN <= o.gap_y < GAP_CENTRE_END,
            o.size == spec_gap_size(score as int, classic_mode),
            o.classic_mode == classic_mode,
    {
        let gap_y = rng_range(rng, GAP_CENTRE_MIN, GAP_CENTRE_END);
        Obstacle::with_gap(x, score, classic_mode, gap_y)
    }

    /// Whether the dragon crashes into this pipe.
    pub fn hit_obstacle(&self, player: &Player) -> (hit: bool)
        requires
            self.hit_in_range(),
        ensures
            hit == self.spec_hit(*player),
    {
        let half_size = self.size / 2;
        assert(half_size == self.half_size());
        let pipe_width = if self.classic_mode {
            1
        } else {
            2
        };
        let x_match = player.x >= self.x && player.x < self.x + pipe_width;
        let above_gap = player.y < self.gap_y - half_size;
        let below_gap = player.y > self.gap_y + half_size;
        x_match && (above_gap || below_gap)
    }

    /// The screen column of this pipe when the dragon stands at column `player_x`.
    pub open spec fn spec_screen_x(&self, player_x: int) -> int {
        self.x - player_x + PLAYER_SCREEN_COL
    }

    /// Where this pipe is drawn when the dragon stands at column `player_x`
    /// (see `layout`).
    pub open spec fn spec_layout(&self, player_x: int, classic_mode: bool) -> PipeLayout {
        let column = self.spec_screen_x(player_x);
        if classic_mode {
            PipeLayout {
                column: column as i32,
                second_column: false,
                top_body_end: self.gap_top() as i32,
                top_cap: None,
                bottom_cap: None,
                bottom_body_start: self.gap_bottom() as i32,
            }
        } else {
            PipeLayout {
                column: column as i32,
                second_column: column + 1 < SCREEN_WIDTH,
                top_body_end: (self.gap_top() - 1) as i32,
                top_cap: if self.gap_top() > 0 {
                    Some((self.gap_top() - 1) as i32)
                } else {
                    None
                },
                bottom_cap: if self.gap_bottom() < SCREEN_HEIGHT {
                    Some(self.gap_bottom() as i32)
                } else {
                    None
                },
                bottom_body_start: (self.gap_bottom() + 1) as i32,
            }
        }
    }

    /// Where this pipe is drawn when the dragon stands at column `player_x`.
    /// A classic pipe is a bar above and below the gap; a journey pipe has a
    /// body that ends one row short of the gap and a cap on the gap's edge
    /// (on screen only), and a second column while that is on screen.
    pub fn layout(&self, player_x: i32, classic_mode: bool) -> (l: PipeLayout)
        requires
            self.in_range(),
            i32::MIN <= self.x - player_x <= i32::MAX,
            i32::MIN <= self.spec_screen_x(player_x as int) < i32::MAX,
        ensures
            l == self.spec_layout(player_x as int, classic_mode),
    {
        let screen_x = self.x - player_x + PLAYER_SCREEN_COL;
        let half_size = self.size / 2;
        assert(half_size == self.half_size());
        let gap_top = self.gap_y - half_size;
        let gap_bot = self.gap_y + half_size;
        if classic_mode {
            PipeLayout {
                column: screen_x,
                second_column: false,
                top_body_end: gap_top,
                top_cap: None,
                bottom_cap: None,
                bottom_body_start: gap_bot,
            }
        } else {
            PipeLayout {
                column: screen_x,
                second_column: screen_x + 1 < SCREEN_WIDTH,
                top_body_end: gap_top - 1,
                top_cap: if gap_top > 0 {
                    Some(gap_top - 1)
                } else {
                    None
                },
                bottom_cap: if gap_bot < SCREEN_HEIGHT {
                    Some(gap_bot)
                } else {
                    None
                },
                bottom_body_start: gap_bot + 1,
            }
        }
    }
}

/// The dragon is safe on the gap's rows and outside the pipe's columns; a
/// classic pipe covers one column, a journey pipe two.
pub proof fn lemma_pipe_hits_only_its_columns(o: Obstacle, p: Player)
    ensures
        o.gap_top() <= p.y <= o.gap_bottom() ==> !o.spec_hit(p),
        (p.x < o.x || p.x >= o.x + o.pipe_width()) ==> !o.spec_hit(p),
        o.spec_hit(p) && o.classic_mode ==> p.x == o.x,
        o.spec_hit(p) && !o.classic_mode ==> (p.x == o.x || p.x == o.x + 1),
{
}

/// The crash test, cell by cell: the dragon crashes exactly when it stands
/// in the pipe's column (classic) or one of its two columns (journey) and on
/// a row above `gap_y - size / 2` or below `gap_y + size / 2`, the half gap
/// rounded toward zero. Both pipes kill, the top one and the bottom one, in
/// either mode.
pub proof fn lemma_crash_is_outside_the_gap(o: Obstacle, p: Player)
    ensures
        o.spec_hit(p) <==> ({
            let width: int = if o.classic_mode {
                1
            } else {
                2
            };
            let half: int = if o.size >= 0 {
                o.size / 2
            } else {
                -((-o.size) / 2)
            };
            &&& o.x <= p.x < o.x + width
            &&& (p.y < o.gap_y - half || p.y > o.gap_y + half)
        }),
        o.size >= 0 && o.x <= p.x < o.x + (if o.classic_mode {
            1int
        } else {
            2int
        }) && p.y > o.gap_y + o.size / 2 ==> o.spec_hit(p),
        o.size >= 0 && o.x <= p.x < o.x + (if o.classic_mode {
            1int
        } else {
            2int
        }) && p.y < o.gap_y - o.size / 2 ==> o.spec_hit(p),
{
}

/// Whether row `y` of the pipe's column(s) is drawn in layout `l`: in one of
/// the bodies or on one of the caps.
pub open spec fn covers_row(l: PipeLayout, y: int) -> bool {
    ||| 0 <= y < l.top_body_end
    ||| l.bottom_body_start <= y < SCREEN_HEIGHT
    ||| l.top_cap == Some(y as i32)
    ||| l.bottom_cap == Some(y as i32)
}

/// Every deadly cell is drawn: when the dragon (on screen) crashes into a
/// pipe, its own cell is part of the pipe on screen, in the pipe's first
/// column or, for a journey pipe, in its second one.
pub proof fn lemma_deadly_cells_are_drawn(o: Obstacle, p: Player)
    requires
        o.in_range(),
        i32::MIN <= o.spec_screen_x(p.x as int) < i32::MAX,
        0 <= p.y < SCREEN_HEIGHT,
        o.spec_hit(p),
    ensures
        covers_row(o.spec_layout(p.x as int, o.classic_mode), p.y as int),
        p.x == o.x ==> o.spec_layout(p.x as int, o.classic_mode).column == PLAYER_SCREEN_COL,
        p.x == o.x + 1 ==> (o.spec_layout(p.x as int, o.classic_mode).second_column
            && o.spec_layout(p.x as int, o.classic_mode).column + 1 == PLAYER_SCREEN_COL),
{
}

} // verus!
