//! The game as a mathematical state machine: a record of unbounded numbers
//! and the two transitions that the host's events cause. The executable state
//! is specified by this model, and the laws of the game are proved of it.

use crate::geometry::{
    reset_region, spin_region, within_margin, Position, Target, PARTICLE_MARGIN, UNIT, X_MAX, X_MIN,
    Y_MAX, Y_MIN,
};
use crate::particle::Particle;
use vstd::prelude::*;

verus! {

/// Seconds on the clock when a round starts.
pub const START_TIME: u64 = 5;

/// Seconds that a found particle adds to the clock.
pub const TIME_BONUS: u64 = 3;

/// Number of frames for which a spin shuffles the particle.
pub const SPIN_FRAMES: u32 = 50;

/// Distance by which the particle sinks in each frame after a spin, as long
/// as that keeps it in the panel.
pub const NUDGE: i32 = UNIT;

/// Height at which a sinking particle has arrived, two pixels above the
/// bottom of the panel.
pub const SETTLE_Y: i32 = 583 * UNIT;

/// Nanoseconds in a second.
pub const ONE_SECOND: u64 = 1_000_000_000;

/// The state of the game over unbounded numbers.
pub struct GameModel {
    /// Horizontal position of the particle.
    pub x: int,
    /// Vertical position of the particle.
    pub y: int,
    /// Looks of the current particle.
    pub particle: Particle,
    /// Particles found in this round.
    pub score: nat,
    /// Seconds left on the clock.
    pub countdown: nat,
    /// A spin is shuffling the particle.
    pub is_spinning: bool,
    /// Frames that the current spin has shown.
    pub spin_frame_count: nat,
    /// The clock has run out and the round has not been reset.
    pub is_game_over: bool,
    /// Nanoseconds gathered towards the next second.
    pub elapsed_since_last_second: nat,
    /// The mouse has been pressed at least once.
    pub mouse_down: bool,
}

impl GameModel {
    /// The state is well-formed: it has what a round starts with and every
    /// frame and click keeps.
    ///
    /// The particle lies in the panel and its looks are proper fractions.
    /// The gathered time never exceeds a second, and a clock at zero means
    /// that the game is over. The clock never shows more than what a round
    /// starts with and the bonuses of the particles found in it.
    pub open spec fn wf(self) -> bool {
        &&& self.in_panel()
        &&& self.particle.wf()
        &&& self.elapsed_since_last_second <= ONE_SECOND
        &&& self.countdown == 0 ==> self.is_game_over
        &&& self.countdown <= START_TIME + TIME_BONUS * self.score
    }

    /// The particle lies in the panel: between its sides, the right one left
    /// out, and between its top and its bottom row, both included.
    pub open spec fn in_panel(self) -> bool {
        X_MIN <= self.x < X_MAX && Y_MIN <= self.y <= Y_MAX
    }

    /// The game is over exactly when the clock stands at zero.
    pub open spec fn clock_agrees(self) -> bool {
        self.is_game_over <==> self.countdown == 0
    }

    /// The state in which a round starts: the particle `particle` on the
    /// bottom row at `x`, a full clock, and nothing else set.
    pub open spec fn spawn(x: int, particle: Particle) -> GameModel {
        GameModel {
            x,
            y: Y_MAX as int,
            particle,
            score: 0,
            countdown: START_TIME as nat,
            is_spinning: false,
            spin_frame_count: 0,
            is_game_over: false,
            elapsed_since_last_second: 0,
            mouse_down: false,
        }
    }

    /// A click at `(x, y)` would find `target`: the point lies in the square
    /// around the particle, on the spin button, or on the reset button while
    /// the game is over, which is when that button is there.
    pub open spec fn hits(self, target: Target, x: int, y: int) -> bool {
        match target {
            Target::Particle => {
                &&& within_margin(self.x, x, PARTICLE_MARGIN as int)
                &&& within_margin(self.y, y, PARTICLE_MARGIN as int)
            },
            Target::Spin => spin_region().covers(x, y),
            Target::Reset => self.is_game_over && reset_region().covers(x, y),
        }
    }

    /// The target that a click at `(x, y)` lands on, if any. The particle is
    /// looked at first, then the spin button, then the reset button.
    pub open spec fn target_at(self, x: int, y: int) -> Option<Target> {
        if self.hits(Target::Particle, x, y) {
            Some(Target::Particle)
        } else if self.hits(Target::Spin, x, y) {
            Some(Target::Spin)
        } else if self.hits(Target::Reset, x, y) {
            Some(Target::Reset)
        } else {
            None
        }
    }

    /// The height to which a particle at height `y` sinks in one frame: one
    /// nudge further down, but never below the bottom row of the panel.
    pub open spec fn sink(y: int) -> int {
        if y + NUDGE <= Y_MAX {
            y + NUDGE
        } else {
            Y_MAX as int
        }
    }

    /// One frame of the spin animation.
    ///
    /// While a spin runs, the particle jumps to `respin` and the frame is
    /// counted. Once the counter is at its limit the spin is over, and the
    /// particle sinks towards the bottom row; when that takes it to the
    /// settling height the counter starts over.
    pub open spec fn spin_step(self, respin: Position) -> GameModel {
        let shuffled = if self.is_spinning {
            GameModel {
                x: respin.x as int,
                y: respin.y as int,
                spin_frame_count: self.spin_frame_count + 1,
                ..self
            }
        } else {
            self
        };
        if shuffled.spin_frame_count >= SPIN_FRAMES {
            let y = GameModel::sink(shuffled.y);
            GameModel {
                y,
                is_spinning: false,
                spin_frame_count: if y >= SETTLE_Y {
                    0
                } else {
                    shuffled.spin_frame_count
                },
                ..shuffled
            }
        } else {
            shuffled
        }
    }

    /// The clock's part of a frame that took `elapsed` nanoseconds.
    ///
    /// The time is added to what was gathered before. As soon as that is more
    /// than a second, and the clock is not at zero, the clock loses one
    /// second and the gathering starts over. A clock at zero ends the game.
    pub open spec fn clock_step(self, elapsed: nat) -> GameModel {
        let total = self.elapsed_since_last_second + elapsed;
        let counted = if self.countdown > 0 && total > ONE_SECOND {
            GameModel {
                countdown: (self.countdown - 1) as nat,
                elapsed_since_last_second: 0,
                ..self
            }
        } else {
            GameModel { elapsed_since_last_second: total, ..self }
        };
        GameModel { is_game_over: counted.countdown == 0, ..counted }
    }

    /// The state after a frame that took `elapsed` nanoseconds, `respin`
    /// being the position drawn for a running spin. Once the game is over a
    /// frame changes nothing.
    pub open spec fn tick(self, elapsed: nat, respin: Position) -> GameModel {
        if self.is_game_over {
            self
        } else {
            self.spin_step(respin).clock_step(elapsed)
        }
    }

    /// The state after a click at `(x, y)`, `respawn_x` and `fresh` being the
    /// draws for a new particle.
    ///
    /// Every click is noted. A click on the particle scores, adds the bonus
    /// to the clock, starts the gathering of time over and puts a fresh
    /// particle on the bottom row at `respawn_x`. A click on the spin button
    /// starts a spin. A click on the reset button, when the game is over,
    /// starts a new round with a fresh particle where the old one was. Any
    /// other click does nothing more.
    pub open spec fn click(self, x: int, y: int, respawn_x: int, fresh: Particle) -> GameModel {
        let noted = GameModel { mouse_down: true, ..self };
        match self.target_at(x, y) {
            Some(Target::Particle) => GameModel {
                x: respawn_x,
                y: Y_MAX as int,
                particle: fresh,
                score: self.score + 1,
                countdown: self.countdown + TIME_BONUS as nat,
                elapsed_since_last_second: 0,
                ..noted
            },
            Some(Target::Spin) => GameModel { is_spinning: true, ..noted },
            Some(Target::Reset) => GameModel {
                is_game_over: false,
                score: 0,
                countdown: START_TIME as nat,
                particle: fresh,
                ..noted
            },
            None => noted,
        }
    }
}

/// One frame of the host's loop as the game sees it.
pub struct Frame {
    /// Nanoseconds that the frame took.
    pub elapsed: nat,
    /// The place drawn for a running spin.
    pub respin: Position,
}

impl GameModel {
    /// The state after the frames of `frames`, in their order, with no click
    /// between them.
    pub open spec fn run(self, frames: Seq<Frame>) -> GameModel
        decreases frames.len(),
    {
        if frames.len() == 0 {
            self
        } else {
            self.run(frames.drop_last()).tick(frames.last().elapsed, frames.last().respin)
        }
    }
}

/// The time that the frames of `frames` took together.
pub open spec fn total_elapsed(frames: Seq<Frame>) -> nat
    decreases frames.len(),
{
    if frames.len() == 0 {
        0
    } else {
        total_elapsed(frames.drop_last()) + frames.last().elapsed
    }
}

/// Every frame of `frames` draws its place from the panel.
pub open spec fn draws_in_panel(frames: Seq<Frame>) -> bool {
    forall|i: int| 0 <= i < frames.len() ==> (#[trigger] frames[i]).respin.in_panel()
}

} // verus!
