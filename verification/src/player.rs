//! The dragon: its position and its vertical velocity.
use crate::tuning::div_toward_zero;
use vstd::prelude::*;

verus! {

/// The dragon. `velocity` is kept in half cells per move (a flap sets it to
/// -3 cells, gravity adds half a cell per move up to 2 cells), so that it
/// stays an integer.
#[derive(Clone, Copy, Debug, PartialEq, Eq, Structural)]
pub struct Player {
    pub x: i32,
    pub y: i32,
    pub velocity: i32,
}

/// Velocity, in half cells, that a flap gives the dragon (3 cells upwards).
pub const FLAP_VELOCITY: i32 = -6;

/// Fastest fall, in half cells per move (2 cells).
pub const TERMINAL_VELOCITY: i32 = 4;

/// Velocity after gravity has acted once: half a cell more, up to the terminal velocity.
pub open spec fn spec_fall(velocity: int) -> int {
    if velocity < TERMINAL_VELOCITY {
        velocity + 1
    } else {
        velocity
    }
}

/// Row after a move at the given velocity (whole cells of it, rounded toward
/// zero), never above the top row.
pub open spec fn spec_next_row(y: int, velocity: int) -> int {
    let moved = y + div_toward_zero(velocity, 2);
    if moved < 0 {
        0
    } else {
        moved
    }
}

impl Player {
    /// The velocity lies between a flap and the terminal velocity.
    pub open spec fn inv(&self) -> bool {
        FLAP_VELOCITY <= self.velocity <= TERMINAL_VELOCITY
    }

    /// A dragon at rest at the given cell.
    pub fn new(x: i32, y: i32) -> (p: Player)
        ensures
            p == (Player { x, y, velocity: 0 }),
            p.inv(),
    {
        Player { x, y, velocity: 0 }
    }

    /// One move: gravity accelerates the dragon, which then advances `x_speed`
    /// columns and falls (or rises) by its velocity, stopping at the top row.
    pub fn gravity_and_move(&mut self, x_speed: i32)
        requires
            old(self).inv(),
            i32::MIN <= old(self).x + x_speed <= i32::MAX,
            i32::MIN + 2 <= old(self).y <= i32::MAX - 2,
        ensures
            final(self).inv(),
            final(self).velocity == spec_fall(old(self).velocity as int),
            final(self).x == old(self).x + x_speed,
            final(self).y == spec_next_row(old(self).y as int, final(self).velocity as int),
    {
        if self.velocity < TERMINAL_VELOCITY {
            self.velocity = self.velocity + 1;
        }
        self.y = self.y + self.velocity / 2;
        self.x = self.x + x_speed;
        if self.y < 0 {
            self.y = 0;
        }
    }

    /// A flap: the dragon heads upwards at 3 cells per move.
    pub fn flap(&mut self)
        ensures
            *final(self) == (Player { velocity: FLAP_VELOCITY, ..*old(self) }),
    {
        self.velocity = FLAP_VELOCITY;
    }
}

} // verus!
