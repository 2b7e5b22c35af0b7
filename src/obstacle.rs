use vstd::prelude::*;

use bracket_lib::random::RandomNumberGenerator;

use crate::player::Player;
use crate::{SCREEN_WIDTH, SUBCELLS};

verus! {

/// Lowest gap center that a fresh obstacle may get.
pub const GAP_CENTER_MIN: i32 = 10;

/// One past the highest gap center that a fresh obstacle may get.
pub const GAP_CENTER_END: i32 = 30;

/// A wall with a gap: its column `x`, the row `gap_y` at the center of the
/// gap, and the gap's total height `size`, in cells.
#[derive(Clone, Copy, Debug, PartialEq, Eq, Structural)]
pub struct Obstacle {
    pub x: i32,
    pub gap_y: i32,
    pub size: i32,
}

/// Where an obstacle is drawn: its screen column, the rows `[0, top_end)` of
/// the upper wall and the rows `[bottom_start, SCREEN_HEIGHT)` of the lower
/// wall.
#[derive(Clone, Copy, Debug, PartialEq, Eq, Structural)]
pub struct ObstacleBounds {
    pub screen_x: i64,
    pub top_end: i64,
    pub bottom_start: i64,
}

/// Gap height for a given score: it narrows by one per point, down to two.
pub open spec fn gap_size_for(score: int) -> int {
    if 20 - score < 2 {
        2
    } else {
        20 - score
    }
}

/// The player is in one of the obstacle's two collision columns.
pub open spec fn x_overlaps(o: Obstacle, p: Player) -> bool {
    o.x <= p.x_cell <= o.x + 1
}

/// The player is above the gap.
pub open spec fn above_gap(o: Obstacle, p: Player) -> bool {
    p.y < (o.gap_y - o.size / 2) * SUBCELLS
}

/// The player is below the gap.
pub open spec fn below_gap(o: Obstacle, p: Player) -> bool {
    p.y > (o.gap_y + o.size / 2) * SUBCELLS
}

/// The player collides with the obstacle: it shares a column with it and
/// lies outside the gap.
pub open spec fn hits(o: Obstacle, p: Player) -> bool {
    x_overlaps(o, p) && (above_gap(o, p) || below_gap(o, p))
}

/// Relies on bracket_lib's `RandomNumberGenerator::new` and its `range`, which
/// draws from the half-open range `[low, high)` of a fresh generator (and
/// panics when the range is empty).
#[verifier::external_body]
fn random_in_range(low: i32, high: i32) -> (r: i32)
    requires
        low < high,
    ensures
        low <= r < high,
{
    let mut rng = RandomNumberGenerator::new();
    rng.range(low, high)
}

impl Obstacle {
    /// The gap height is at least two cells.
    pub open spec fn wf(self) -> bool {
        self.size >= 2
    }

    /// A fresh obstacle at column `x` for the given score, with its gap
    /// centered at `gap_y`.
    pub open spec fn spawned(x: i32, score: int, gap_y: i32) -> Obstacle {
        Obstacle { x, gap_y, size: gap_size_for(score) as i32 }
    }

    /// The obstacle after one physics step: one column to the left, wrapping
    /// back to the right edge when it would leave the screen.
    pub open spec fn advanced(self) -> Obstacle {
        if self.x - 1 < 0 {
            Obstacle { x: SCREEN_WIDTH, ..self }
        } else {
            Obstacle { x: (self.x - 1) as i32, ..self }
        }
    }

    /// A fresh obstacle at column `x` for the given score, with a gap centered
    /// at `gap_y`.
    pub fn with_gap_center(x: i32, score: u64, gap_y: i32) -> (r: Obstacle)
        ensures
            r == Obstacle::spawned(x, score as int, gap_y),
            r.wf(),
            score >= 18 ==> r.size == 2,
    {
        let size: i32 = if score >= 18 {
            2
        } else {
            20 - score as i32
        };
        Obstacle { x, gap_y, size }
    }

    /// A fresh obstacle at column `x` for the given score, with a gap center
    /// drawn at random from `[GAP_CENTER_MIN, GAP_CENTER_END)`.
    pub fn new(x: i32, score: u64) -> (r: Obstacle)
        ensures
            r.x == x,
            r.size == gap_size_for(score as int),
            GAP_CENTER_MIN <= r.gap_y < GAP_CENTER_END,
            r == Obstacle::spawned(x, score as int, r.gap_y),
            score >= 18 ==> r.size == 2,
            r.wf(),
    {
        let gap_y = random_in_range(GAP_CENTER_MIN, GAP_CENTER_END);
        Obstacle::with_gap_center(x, score, gap_y)
    }

    /// Moves the obstacle one column to the left; past the left edge it is
    /// put back at the right edge with the same gap.
    pub fn move_obstacle(&mut self)
        ensures
            *final(self) == old(self).advanced(),
    {
        if self.x <= 0 {
            self.x = SCREEN_WIDTH;
        } else {
            self.x = self.x - 1;
        }
    }

    /// Whether the player collides with this obstacle.
    pub fn hit_obstacle(&self, player: &Player) -> (r: bool)
        requires
            self.wf(),
        ensures
            r == hits(*self, *player),
            player.x_cell < self.x || player.x_cell > self.x + 1 ==> !r,
            x_overlaps(*self, *player) && (above_gap(*self, *player) || below_gap(*self, *player))
                ==> r,
    {
        let half_size: i64 = (self.size / 2) as i64;
        let x: i64 = self.x as i64;
        let px: i64 = player.x_cell as i64;
        let does_x_match = px >= x && px <= x + 1;
        let player_above_gap = player.y < (self.gap_y as i64 - half_size) * SUBCELLS;
        let player_below_gap = player.y > (self.gap_y as i64 + half_size) * SUBCELLS;
        does_x_match && (player_above_gap || player_below_gap)
    }

    /// Where to draw the obstacle when the player stands at column `player_x`.
    pub fn render_bounds(&self, player_x: i32) -> (r: ObstacleBounds)
        requires
            self.wf(),
        ensures
            r.screen_x == self.x - player_x,
            r.top_end == self.gap_y - self.size / 2,
            r.bottom_start == self.gap_y + self.size / 2,
            r.top_end < r.bottom_start,
    {
        let half_size: i64 = (self.size / 2) as i64;
        ObstacleBounds {
            screen_x: self.x as i64 - player_x as i64,
            top_end: self.gap_y as i64 - half_size,
            bottom_start: self.gap_y as i64 + half_size,
        }
    }
}

} // verus!
