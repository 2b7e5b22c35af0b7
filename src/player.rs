use vstd::prelude::*;

use crate::{FLAP_STRENGTH, GRAVITY, SCREEN_BOTTOM, SUBCELLS};

verus! {

/// The player: a fixed screen column, a vertical position and a vertical
/// velocity. `y` and `velocity` are in hundredths of a cell; `y` grows
/// downward, from 0 at the top to `SCREEN_BOTTOM`.
#[derive(Clone, Copy, Debug, PartialEq, Eq, Structural)]
pub struct Player {
    pub x_cell: i32,
    pub y: i64,
    pub velocity: i64,
}

/// Velocity after gravity is applied once; it saturates at `i64::MAX`.
pub open spec fn gravity_applied(v: int) -> int {
    if v + GRAVITY > i64::MAX {
        i64::MAX as int
    } else {
        v + GRAVITY
    }
}

impl Player {
    /// The player lies within the screen's vertical bounds.
    pub open spec fn wf(self) -> bool {
        0 <= self.y <= SCREEN_BOTTOM
    }

    /// The player after one physics step: gravity, then motion, then clamping
    /// to the top (which stops the player) and to the bottom (which does not).
    pub open spec fn moved(self) -> Player {
        let v = gravity_applied(self.velocity as int);
        let raw = self.y + v;
        if raw < 0 {
            Player { x_cell: self.x_cell, y: 0, velocity: 0 }
        } else if raw > SCREEN_BOTTOM {
            Player { x_cell: self.x_cell, y: SCREEN_BOTTOM, velocity: v as i64 }
        } else {
            Player { x_cell: self.x_cell, y: raw as i64, velocity: v as i64 }
        }
    }

    /// The player after `n` physics steps with no flap in between.
    pub open spec fn steps(self, n: nat) -> Player
        decreases n,
    {
        if n == 0 {
            self
        } else {
            self.steps((n - 1) as nat).moved()
        }
    }

    /// The player is not moving upward once gravity is applied, or already
    /// rests against the top.
    pub open spec fn falling(self) -> bool {
        self.y == 0 || self.velocity + GRAVITY >= 0
    }

    /// A player at column `x_cell` and height `y`, at rest.
    pub fn new(x_cell: i32, y: i64) -> (r: Player)
        requires
            0 <= y <= SCREEN_BOTTOM,
        ensures
            r == (Player { x_cell, y, velocity: 0 }),
            r.wf(),
    {
        Player { x_cell, y, velocity: 0 }
    }

    /// One physics step: gravity, motion, and clamping to the screen.
    pub fn gravity_and_move(&mut self)
        requires
            old(self).wf(),
        ensures
            *final(self) == old(self).moved(),
            final(self).wf(),
            final(self).x_cell == old(self).x_cell,
            old(self).y + gravity_applied(old(self).velocity as int) < 0 ==> final(self).y == 0
                && final(self).velocity == 0,
    {
        let v: i64 = if self.velocity > i64::MAX - GRAVITY {
            i64::MAX
        } else {
            self.velocity + GRAVITY
        };
        if v > SCREEN_BOTTOM - self.y {
            self.y = SCREEN_BOTTOM;
            self.velocity = v;
        } else if self.y + v < 0 {
            self.y = 0;
            self.velocity = 0;
        } else {
            self.y = self.y + v;
            self.velocity = v;
        }
    }

    /// Sets the velocity to the fixed upward impulse, whatever it was.
    pub fn flap(&mut self)
        ensures
            final(self).velocity == FLAP_STRENGTH,
            final(self).x_cell == old(self).x_cell,
            final(self).y == old(self).y,
    {
        self.velocity = FLAP_STRENGTH;
    }

    /// The screen row that the player occupies.
    pub fn y_cell(&self) -> (r: i64)
        requires
            self.wf(),
        ensures
            r == self.y / SUBCELLS,
    {
        self.y / SUBCELLS
    }
}

/// One step keeps a falling player falling, never moves it up, and keeps it at
/// the bottom once it is there.
proof fn lemma_moved_falling(p: Player)
    requires
        p.wf(),
        p.falling(),
    ensures
        p.moved().wf(),
        p.moved().falling(),
        p.y <= p.moved().y,
        p.y == SCREEN_BOTTOM ==> p.moved().y == SCREEN_BOTTOM,
{
}

/// Without a flap, a player that is falling never rises: its height is
/// non-decreasing over any run of physics steps, and once it reaches the
/// bottom it stays there.
pub proof fn lemma_fall_monotone(p: Player, m: nat, n: nat)
    requires
        p.wf(),
        p.falling(),
        m <= n,
    ensures
        p.steps(n).wf(),
        p.steps(n).falling(),
        p.steps(m).y <= p.steps(n).y,
        p.steps(m).y == SCREEN_BOTTOM ==> p.steps(n).y == SCREEN_BOTTOM,
    decreases n,
{
    if n > 0 {
        if m == n {
            lemma_fall_monotone(p, 0, (n - 1) as nat);
        } else {
            lemma_fall_monotone(p, m, (n - 1) as nat);
        }
        lemma_moved_falling(p.steps((n - 1) as nat));
    }
}

} // verus!
