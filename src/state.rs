use vstd::prelude::*;

use crate::obstacle::{hits, GAP_CENTER_END, GAP_CENTER_MIN, Obstacle};
use crate::player::Player;
use crate::{FLAP_STRENGTH, FRAME_DURATION_US, SCREEN_BOTTOM, SCREEN_WIDTH};

verus! {

/// Column at which the player stands.
pub const START_X_CELL: i32 = 5;

/// Height at which the player starts, in hundredths of a cell.
pub const START_Y: i64 = 2000;

/// Which screen the game is on.
#[derive(Clone, Copy, Debug, PartialEq, Eq, Structural)]
pub enum GameMode {
    Menu,
    Playing,
    End,
}

/// A command from the player, at most one per tick.
#[derive(Clone, Copy, Debug, PartialEq, Eq, Structural)]
pub enum Command {
    Flap,
    Start,
    Quit,
}

/// The whole game: the player, the obstacle, the screen, the score, and the
/// time accumulated toward the next physics step (in microseconds).
#[derive(Clone, Copy, Debug, PartialEq, Eq, Structural)]
pub struct State {
    pub player: Player,
    pub frame_time: u64,
    pub obstacle: Obstacle,
    pub mode: GameMode,
    pub score: u64,
}

/// The score after one more obstacle is passed; it saturates at `u64::MAX`.
pub open spec fn scored(score: u64) -> u64 {
    if score == u64::MAX {
        score
    } else {
        (score + 1) as u64
    }
}

impl State {
    /// The parts are well formed and the accumulator has not passed a frame.
    pub open spec fn wf(self) -> bool {
        self.player.wf() && self.obstacle.wf() && self.frame_time <= FRAME_DURATION_US
    }

    /// The game as a fresh run starts it, with the obstacle's gap at `gap_y`.
    pub open spec fn restarted(self, gap_y: i32) -> State {
        State {
            player: Player { x_cell: START_X_CELL, y: START_Y, velocity: 0 },
            frame_time: 0,
            obstacle: Obstacle::spawned(SCREEN_WIDTH, 0, gap_y),
            mode: GameMode::Playing,
            score: 0,
        }
    }

    /// The game after one tick on the playing screen: `elapsed_us` is added to
    /// the accumulator and a physics step runs once it passes a frame; then a
    /// flap, if any; then, if the player has passed the obstacle, a point and a
    /// fresh obstacle with its gap at `gap_y`; then the end of the run on a
    /// collision or a fall to the bottom.
    pub open spec fn played(self, elapsed_us: u64, flap: bool, gap_y: i32) -> State {
        let step = self.frame_time + elapsed_us > FRAME_DURATION_US;
        let frame_time = if step {
            0
        } else {
            (self.frame_time + elapsed_us) as u64
        };
        let p1 = if step {
            self.player.moved()
        } else {
            self.player
        };
        let o1 = if step {
            self.obstacle.advanced()
        } else {
            self.obstacle
        };
        let player = if flap {
            Player { velocity: FLAP_STRENGTH, ..p1 }
        } else {
            p1
        };
        let passed = player.x_cell > o1.x;
        let score = if passed {
            scored(self.score)
        } else {
            self.score
        };
        let obstacle = if passed {
            Obstacle::spawned(SCREEN_WIDTH, score as int, gap_y)
        } else {
            o1
        };
        let mode = if hits(obstacle, player) || player.y >= SCREEN_BOTTOM {
            GameMode::End
        } else {
            self.mode
        };
        State { player, frame_time, obstacle, mode, score }
    }

    /// The game after one tick with the given command: the menu and the end
    /// screen start a run on `Start` and leave the rest to the driver; the
    /// playing screen advances the run and flaps on `Flap`.
    pub open spec fn ticked(self, elapsed_us: u64, cmd: Option<Command>, gap_y: i32) -> State {
        match self.mode {
            GameMode::Playing => self.played(elapsed_us, cmd == Some(Command::Flap), gap_y),
            _ => if cmd == Some(Command::Start) {
                self.restarted(gap_y)
            } else {
                self
            },
        }
    }

    /// Whether a tick with the given command asks the driver to quit.
    pub open spec fn quits(self, cmd: Option<Command>) -> bool {
        self.mode != GameMode::Playing && cmd == Some(Command::Quit)
    }

    /// A game on the menu screen, with a fresh obstacle whose gap is at `gap_y`.
    pub fn with_gap_center(gap_y: i32) -> (r: State)
        ensures
            r == (State { mode: GameMode::Menu, ..r.restarted(gap_y) }),
            r.wf(),
    {
        State {
            player: Player::new(START_X_CELL, START_Y),
            frame_time: 0,
            obstacle: Obstacle::with_gap_center(SCREEN_WIDTH, 0, gap_y),
            mode: GameMode::Menu,
            score: 0,
        }
    }

    /// A game on the menu screen, with a fresh obstacle whose gap is drawn at
    /// random.
    pub fn new() -> (r: State)
        ensures
            r == (State { mode: GameMode::Menu, ..r.restarted(r.obstacle.gap_y) }),
            GAP_CENTER_MIN <= r.obstacle.gap_y < GAP_CENTER_END,
            r.wf(),
    {
        let gap_y = Obstacle::new(SCREEN_WIDTH, 0).gap_y;
        State::with_gap_center(gap_y)
    }

    /// Starts a fresh run, with the obstacle's gap at `gap_y`.
    pub fn restart_with_gap_center(&mut self, gap_y: i32)
        ensures
            *final(self) == old(self).restarted(gap_y),
            final(self).wf(),
            final(self).mode == GameMode::Playing,
            final(self).score == 0,
            final(self).player.y == START_Y,
            final(self).player.velocity == 0,
    {
        self.player = Player::new(START_X_CELL, START_Y);
        self.frame_time = 0;
        self.obstacle = Obstacle::with_gap_center(SCREEN_WIDTH, 0, gap_y);
        self.mode = GameMode::Playing;
        self.score = 0;
    }

    /// Starts a fresh run, with the obstacle's gap drawn at random.
    pub fn restart(&mut self)
        ensures
            *final(self) == old(self).restarted(final(self).obstacle.gap_y),
            GAP_CENTER_MIN <= final(self).obstacle.gap_y < GAP_CENTER_END,
            final(self).wf(),
            final(self).mode == GameMode::Playing,
            final(self).score == 0,
            final(self).player.y == START_Y,
            final(self).player.velocity == 0,
    {
        let gap_y = Obstacle::new(SCREEN_WIDTH, 0).gap_y;
        self.restart_with_gap_center(gap_y);
    }

    /// One tick on the playing screen; see `played`.
    pub fn play(&mut self, elapsed_us: u64, flap: bool, gap_y: i32)
        requires
            old(self).wf(),
        ensures
            *final(self) == old(self).played(elapsed_us, flap, gap_y),
            final(self).wf(),
    {
        if elapsed_us > FRAME_DURATION_US - self.frame_time {
            self.frame_time = 0;
            self.player.gravity_and_move();
            self.obstacle.move_obstacle();
        } else {
            self.frame_time = self.frame_time + elapsed_us;
        }
        if flap {
            self.player.flap();
        }
        if self.player.x_cell > self.obstacle.x {
            if self.score < u64::MAX {
                self.score = self.score + 1;
            }
            self.obstacle = Obstacle::with_gap_center(SCREEN_WIDTH, self.score, gap_y);
        }
        if self.obstacle.hit_obstacle(&self.player) || self.player.y >= SCREEN_BOTTOM {
            self.mode = GameMode::End;
        }
    }

    /// One tick on the menu or the end screen: `Start` begins a fresh run with
    /// the obstacle's gap at `gap_y`; the result says whether to quit.
    pub fn on_screen(&mut self, cmd: Option<Command>, gap_y: i32) -> (quit: bool)
        ensures
            *final(self) == (if cmd == Some(Command::Start) {
                old(self).restarted(gap_y)
            } else {
                *old(self)
            }),
            quit == (cmd == Some(Command::Quit)),
    {
        match cmd {
            Some(Command::Start) => {
                self.restart_with_gap_center(gap_y);
                false
            },
            Some(Command::Quit) => true,
            _ => false,
        }
    }

    /// One tick of the game, `elapsed_us` after the previous one, with the
    /// player's command if any, and `gap_y` as the gap center of an obstacle
    /// made during the tick. The result says whether to quit.
    pub fn tick_with_gap_center(&mut self, elapsed_us: u64, cmd: Option<Command>, gap_y: i32) -> (quit: bool)
        requires
            old(self).wf(),
        ensures
            *final(self) == old(self).ticked(elapsed_us, cmd, gap_y),
            quit == old(self).quits(cmd),
            final(self).wf(),
    {
        match self.mode {
            GameMode::Playing => {
                let flap = match cmd {
                    Some(Command::Flap) => true,
                    _ => false,
                };
                self.play(elapsed_us, flap, gap_y);
                false
            },
            _ => self.on_screen(cmd, gap_y),
        }
    }

    /// One tick of the game, `elapsed_us` after the previous one, with the
    /// player's command if any; an obstacle made during the tick gets a gap
    /// center drawn at random. The result says whether to quit.
    pub fn tick(&mut self, elapsed_us: u64, cmd: Option<Command>) -> (quit: bool)
        requires
            old(self).wf(),
        ensures
            exists|g: i32|
                GAP_CENTER_MIN <= g < GAP_CENTER_END && *final(self) == old(self).ticked(
                    elapsed_us,
                    cmd,
                    g,
                ),
            quit == old(self).quits(cmd),
            final(self).wf(),
    {
        let gap_y = Obstacle::new(SCREEN_WIDTH, 0).gap_y;
        self.tick_with_gap_center(elapsed_us, cmd, gap_y)
    }
}

} // verus!
