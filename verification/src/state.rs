//! The executable game state and the two events that change it: a frame of
//! the host's loop and a click of the mouse. Each event comes in two forms,
//! one that takes the random draws as arguments and one that draws them
//! itself.

use crate::geometry::{hit_region, Position, Target, X_MAX, X_MIN, Y_MAX, Y_MIN};
use crate::model::{GameModel, NUDGE, ONE_SECOND, SETTLE_Y, SPIN_FRAMES, START_TIME, TIME_BONUS};
use crate::particle::{new_particle, Particle};
use crate::random::{rand_coord_gen, rand_coord_gen_low};
use vstd::prelude::*;

verus! {

/// The state of a game. It is made by [`GameState::new`] or
/// [`GameState::with_draws`] and changed only by the events below. Its
/// invariant is that of the model, [`GameModel::wf`]: it holds of every state,
/// so no event asks for it, and every function here passes it on.
#[derive(Clone, Copy, Debug, PartialEq, Eq)]
pub struct GameState {
    position: Position,
    particle: Particle,
    score: u32,
    countdown: u64,
    is_spinning: bool,
    spin_frame_count: u32,
    is_game_over: bool,
    elapsed_since_last_second: u64,
    mouse_down: bool,
}

impl View for GameState {
    type V = GameModel;

    closed spec fn view(&self) -> GameModel {
        GameModel {
            x: self.position.x as int,
            y: self.position.y as int,
            particle: self.particle,
            score: self.score as nat,
            countdown: self.countdown as nat,
            is_spinning: self.is_spinning,
            spin_frame_count: self.spin_frame_count as nat,
            is_game_over: self.is_game_over,
            elapsed_since_last_second: self.elapsed_since_last_second as nat,
            mouse_down: self.mouse_down,
        }
    }
}

impl GameState {
    /// Every state is well-formed.
    #[verifier::type_invariant]
    closed spec fn inv(&self) -> bool {
        self@.wf()
    }

    /// Starts a round with the particle `particle` on the bottom row at `x`.
    pub fn with_draws(x: i32, particle: Particle) -> (state: GameState)
        requires
            X_MIN <= x < X_MAX,
            particle.wf(),
        ensures
            state@ == GameModel::spawn(x as int, particle),
            state@.wf(),
    {
        GameState {
            position: Position { x, y: Y_MAX },
            particle,
            score: 0,
            countdown: START_TIME,
            is_spinning: false,
            spin_frame_count: 0,
            is_game_over: false,
            elapsed_since_last_second: 0,
            mouse_down: false,
        }
    }

    /// Starts a round with a random particle at a random place on the bottom
    /// row.
    pub fn new() -> (state: GameState)
        ensures
            state@ == GameModel::spawn(state@.x, state@.particle),
            state@.wf(),
    {
        let x: i32 = rand_coord_gen_low(X_MIN, X_MAX);
        let particle = new_particle();
        GameState::with_draws(x, particle)
    }

    /// Advances the game by a frame that took `elapsed_nanos` nanoseconds,
    /// `respin` being the place to which a running spin moves the particle.
    ///
    /// The spin counter must have room for one more frame.
    pub fn tick_with(&mut self, elapsed_nanos: u64, respin: Position)
        requires
            respin.in_panel(),
            old(self)@.is_spinning && !old(self)@.is_game_over ==> old(self)@.spin_frame_count
                < u32::MAX,
        ensures
            final(self)@ == old(self)@.tick(elapsed_nanos as nat, respin),
            final(self)@.in_panel(),
            final(self)@.wf(),
    {
        proof {
            use_type_invariant(&*self);
        }
        if self.is_game_over {
            return ;
        }
        let mut position = self.position;
        let mut spin_frame_count = self.spin_frame_count;
        let mut is_spinning = self.is_spinning;
        if is_spinning {
            position = respin;
            spin_frame_count = spin_frame_count + 1;
        }
        if spin_frame_count >= SPIN_FRAMES {
            let sunk: i32 = if position.y <= Y_MAX - NUDGE {
                position.y + NUDGE
            } else {
                Y_MAX
            };
            position = Position { x: position.x, y: sunk };
            is_spinning = false;
            if position.y >= SETTLE_Y {
                spin_frame_count = 0;
            }
        }
        let mut countdown = self.countdown;
        let mut gathered = self.elapsed_since_last_second;
        if elapsed_nanos > ONE_SECOND - gathered {
            countdown = countdown - 1;
            gathered = 0;
        } else {
            gathered = gathered + elapsed_nanos;
        }
        *self = GameState {
            position,
            particle: self.particle,
            score: self.score,
            countdown,
            is_spinning,
            spin_frame_count,
            is_game_over: countdown == 0,
            elapsed_since_last_second: gathered,
            mouse_down: self.mouse_down,
        };
    }

    /// Advances the game by a frame that took `elapsed_nanos` nanoseconds. A
    /// running spin moves the particle to a random place of the panel above
    /// its bottom row.
    ///
    /// The spin counter must have room for one more frame.
    pub fn tick(&mut self, elapsed_nanos: u64)
        requires
            old(self)@.is_spinning && !old(self)@.is_game_over ==> old(self)@.spin_frame_count
                < u32::MAX,
        ensures
            exists|respin: Position|
                respin.in_draw_area() && final(self)@ == #[trigger] old(self)@.tick(
                    elapsed_nanos as nat,
                    respin,
                ),
            final(self)@.in_panel(),
            final(self)@.wf(),
    {
        let respin = if self.is_spinning && !self.is_game_over {
            rand_coord_gen(X_MIN, X_MAX, Y_MIN, Y_MAX)
        } else {
            Position { x: X_MIN, y: Y_MIN }
        };
        self.tick_with(elapsed_nanos, respin);
    }

    /// Finds what a click at `(x, y)` lands on: the particle first, then the
    /// spin button, then, when the game is over, the reset button.
    pub fn target_at(&self, x: i32, y: i32) -> (target: Option<Target>)
        ensures
            target == self@.target_at(x as int, y as int),
    {
        if hit_region(Target::Particle, self.position).contains(x, y) {
            Some(Target::Particle)
        } else if hit_region(Target::Spin, self.position).contains(x, y) {
            Some(Target::Spin)
        } else if self.is_game_over && hit_region(Target::Reset, self.position).contains(x, y) {
            Some(Target::Reset)
        } else {
            None
        }
    }

    /// Handles a click at `(x, y)`, `respawn_x` and `fresh` being the draws
    /// for a new particle.
    ///
    /// Where the click finds the particle, the score must have room for the
    /// point. The clock needs no such room: it is bounded by the score.
    pub fn on_click_with(&mut self, x: i32, y: i32, respawn_x: i32, fresh: Particle)
        requires
            X_MIN <= respawn_x < X_MAX,
            fresh.wf(),
            old(self)@.hits(Target::Particle, x as int, y as int) ==> old(self)@.score < u32::MAX,
        ensures
            final(self)@ == old(self)@.click(x as int, y as int, respawn_x as int, fresh),
            final(self)@.wf(),
    {
        proof {
            use_type_invariant(&*self);
        }
        match self.target_at(x, y) {
            Some(Target::Particle) => {
                *self = GameState {
                    position: Position { x: respawn_x, y: Y_MAX },
                    particle: fresh,
                    score: self.score + 1,
                    countdown: self.countdown + TIME_BONUS,
                    is_spinning: self.is_spinning,
                    spin_frame_count: self.spin_frame_count,
                    is_game_over: self.is_game_over,
                    elapsed_since_last_second: 0,
                    mouse_down: true,
                };
            },
            Some(Target::Spin) => {
                *self = GameState { is_spinning: true, mouse_down: true, ..*self };
            },
            Some(Target::Reset) => {
                *self = GameState {
                    position: self.position,
                    particle: fresh,
                    score: 0,
                    countdown: START_TIME,
                    is_spinning: self.is_spinning,
                    spin_frame_count: self.spin_frame_count,
                    is_game_over: false,
                    elapsed_since_last_second: self.elapsed_since_last_second,
                    mouse_down: true,
                };
            },
            None => {
                *self = GameState { mouse_down: true, ..*self };
            },
        }
    }

    /// Handles a click at `(x, y)`. A particle that is found, or a round that
    /// is reset, brings a random new particle; a found one is replaced at a
    /// random place on the bottom row.
    ///
    /// Where the click finds the particle, the score must have room for the
    /// point. The clock needs no such room: it is bounded by the score.
    pub fn on_click(&mut self, x: i32, y: i32)
        requires
            old(self)@.hits(Target::Particle, x as int, y as int) ==> old(self)@.score < u32::MAX,
        ensures
            final(self)@ == old(self)@.click(
                x as int,
                y as int,
                final(self)@.x,
                final(self)@.particle,
            ),
            final(self)@.wf(),
    {
        proof {
            use_type_invariant(&*self);
        }
        match self.target_at(x, y) {
            Some(Target::Particle) => {
                let respawn_x: i32 = rand_coord_gen_low(X_MIN, X_MAX);
                let fresh = new_particle();
                self.on_click_with(x, y, respawn_x, fresh);
            },
            Some(Target::Reset) => {
                let fresh = new_particle();
                self.on_click_with(x, y, X_MIN, fresh);
            },
            _ => {
                let kept = self.particle;
                self.on_click_with(x, y, X_MIN, kept);
            },
        }
    }

    /// Where the particle is.
    pub fn position(&self) -> (position: Position)
        ensures
            position.x == self@.x,
            position.y == self@.y,
            self@.wf(),
    {
        proof {
            use_type_invariant(self);
        }
        self.position
    }

    /// The looks of the current particle.
    pub fn particle(&self) -> (particle: Particle)
        ensures
            particle == self@.particle,
            self@.wf(),
    {
        proof {
            use_type_invariant(self);
        }
        self.particle
    }

    /// Particles found in this round.
    pub fn score(&self) -> (score: u32)
        ensures
            score == self@.score,
            self@.wf(),
    {
        proof {
            use_type_invariant(self);
        }
        self.score
    }

    /// Seconds left on the clock.
    pub fn countdown(&self) -> (countdown: u64)
        ensures
            countdown == self@.countdown,
            self@.wf(),
    {
        proof {
            use_type_invariant(self);
        }
        self.countdown
    }

    /// Whether a spin is shuffling the particle.
    pub fn is_spinning(&self) -> (spinning: bool)
        ensures
            spinning == self@.is_spinning,
            self@.wf(),
    {
        proof {
            use_type_invariant(self);
        }
        self.is_spinning
    }

    /// Frames that the current spin has shown.
    pub fn spin_frame_count(&self) -> (frames: u32)
        ensures
            frames == self@.spin_frame_count,
            self@.wf(),
    {
        proof {
            use_type_invariant(self);
        }
        self.spin_frame_count
    }

    /// Whether the clock has run out and the round has not been reset.
    pub fn is_game_over(&self) -> (over: bool)
        ensures
            over == self@.is_game_over,
            self@.wf(),
    {
        proof {
            use_type_invariant(self);
        }
        self.is_game_over
    }

    /// Nanoseconds gathered towards the next second.
    pub fn elapsed_since_last_second(&self) -> (elapsed: u64)
        ensures
            elapsed == self@.elapsed_since_last_second,
            self@.wf(),
    {
        proof {
            use_type_invariant(self);
        }
        self.elapsed_since_last_second
    }

    /// Whether the mouse has been pressed since the state was made.
    pub fn mouse_down(&self) -> (pressed: bool)
        ensures
            pressed == self@.mouse_down,
            self@.wf(),
    {
        proof {
            use_type_invariant(self);
        }
        self.mouse_down
    }
}

} // verus!
