//! Laws of the game, proved of the model for every state, every elapsed time
//! and every draw.

use crate::geometry::{reset_region, Position, Target, X_MAX, X_MIN, Y_MAX};
use crate::model::{
    draws_in_panel, total_elapsed, Frame, GameModel, NUDGE, ONE_SECOND, SETTLE_Y, SPIN_FRAMES,
    START_TIME, TIME_BONUS,
};
use crate::particle::Particle;
use vstd::prelude::*;

verus! {

/// A round starts in a well-formed state, with the particle in the panel and
/// the clock in agreement with the game-over flag.
pub proof fn lemma_spawn_is_wf(x: int, particle: Particle)
    requires
        X_MIN <= x < X_MAX,
        particle.wf(),
    ensures
        GameModel::spawn(x, particle).wf(),
        GameModel::spawn(x, particle).in_panel(),
        GameModel::spawn(x, particle).clock_agrees(),
{
}

/// A frame takes a well-formed state to a well-formed state.
pub proof fn lemma_tick_keeps_wf(state: GameModel, elapsed: nat, respin: Position)
    requires
        state.wf(),
        respin.in_panel(),
    ensures
        state.tick(elapsed, respin).wf(),
{
}

/// A click takes a well-formed state to a well-formed state.
pub proof fn lemma_click_keeps_wf(
    state: GameModel,
    x: int,
    y: int,
    respawn_x: int,
    fresh: Particle,
)
    requires
        state.wf(),
        X_MIN <= respawn_x < X_MAX,
        fresh.wf(),
    ensures
        state.click(x, y, respawn_x, fresh).wf(),
{
}

/// Frames without a click lead from a well-formed state to a well-formed
/// state.
pub proof fn lemma_run_keeps_wf(state: GameModel, frames: Seq<Frame>)
    requires
        state.wf(),
        draws_in_panel(frames),
    ensures
        state.run(frames).wf(),
    decreases frames.len(),
{
    if frames.len() > 0 {
        lemma_run_keeps_wf(state, frames.drop_last());
    }
}

/// A particle that replaces a found one lies in the panel, on the bottom row
/// at the place that was drawn for it.
pub proof fn lemma_respawn_in_panel(
    state: GameModel,
    x: int,
    y: int,
    respawn_x: int,
    fresh: Particle,
)
    requires
        X_MIN <= respawn_x < X_MAX,
        state.hits(Target::Particle, x, y),
    ensures
        ({
            let after = state.click(x, y, respawn_x, fresh);
            &&& after.x == respawn_x
            &&& after.y == Y_MAX
            &&& after.in_panel()
        }),
{
}

/// A frame never takes the particle out of the panel, whatever the state of
/// the spin and of the clock.
pub proof fn lemma_tick_stays_in_panel(state: GameModel, elapsed: nat, respin: Position)
    requires
        state.in_panel(),
        respin.in_panel(),
    ensures
        state.tick(elapsed, respin).in_panel(),
{
}

/// Frames without a click never take the particle out of the panel.
pub proof fn lemma_run_stays_in_panel(state: GameModel, frames: Seq<Frame>)
    requires
        state.in_panel(),
        draws_in_panel(frames),
    ensures
        state.run(frames).in_panel(),
    decreases frames.len(),
{
    if frames.len() > 0 {
        lemma_run_stays_in_panel(state, frames.drop_last());
    }
}

/// Every frame of a running spin leaves the particle in the panel, wherever
/// it was before. While the spin has frames left after this one, the frame
/// puts the particle exactly where the draw says.
pub proof fn lemma_respin_in_panel(state: GameModel, elapsed: nat, respin: Position)
    requires
        respin.in_panel(),
        state.is_spinning,
        !state.is_game_over,
    ensures
        ({
            let after = state.tick(elapsed, respin);
            &&& after.in_panel()
            &&& state.spin_frame_count + 1 < SPIN_FRAMES ==> after.x == respin.x && after.y
                == respin.y
        }),
{
}

/// A click moves the particle only by replacing it, so a click never takes
/// the particle out of the panel.
pub proof fn lemma_click_stays_in_panel(
    state: GameModel,
    x: int,
    y: int,
    respawn_x: int,
    fresh: Particle,
)
    requires
        state.in_panel(),
        X_MIN <= respawn_x < X_MAX,
    ensures
        state.click(x, y, respawn_x, fresh).in_panel(),
{
}

/// During a running spin of a game that is not over, each frame counts one
/// up as long as the count stays below the limit, and the frame that takes
/// the count to the limit ends the spin.
pub proof fn lemma_spin_counts_up(state: GameModel, elapsed: nat, respin: Position)
    requires
        state.is_spinning,
        !state.is_game_over,
    ensures
        ({
            let after = state.tick(elapsed, respin);
            if state.spin_frame_count + 1 < SPIN_FRAMES {
                after.is_spinning && after.spin_frame_count == state.spin_frame_count + 1
            } else {
                !after.is_spinning
            }
        }),
{
}

/// No frame starts a spin: only a click does.
pub proof fn lemma_tick_never_starts_spin(state: GameModel, elapsed: nat, respin: Position)
    requires
        !state.is_spinning,
    ensures
        !state.tick(elapsed, respin).is_spinning,
{
}

/// Without a running spin, and once the game is over, a frame does not look
/// at the draw.
pub proof fn lemma_tick_ignores_idle_draw(
    state: GameModel,
    elapsed: nat,
    one: Position,
    other: Position,
)
    requires
        !state.is_spinning || state.is_game_over,
    ensures
        state.tick(elapsed, one) == state.tick(elapsed, other),
{
}

/// Over any number of frames without a click, a spin that has ended stays
/// ended, and the count of a spin that is still running has not gone down.
/// If the game is not over either, the spin has counted every frame, and a
/// spin that started below the limit is still below it. A spin whose count
/// would have reached the limit in these frames has ended. A game that is
/// not over after the frames was not over before them.
pub proof fn lemma_run_spin(state: GameModel, frames: Seq<Frame>)
    ensures
        ({
            let after = state.run(frames);
            &&& after.is_spinning ==> state.is_spinning && state.spin_frame_count
                <= after.spin_frame_count
            &&& after.is_spinning && !after.is_game_over ==> after.spin_frame_count
                == state.spin_frame_count + frames.len()
            &&& after.is_spinning && state.spin_frame_count < SPIN_FRAMES
                ==> after.spin_frame_count < SPIN_FRAMES
            &&& !after.is_game_over && frames.len() >= 1 && state.spin_frame_count + frames.len()
                >= SPIN_FRAMES ==> !after.is_spinning
            &&& !after.is_game_over ==> !state.is_game_over
        }),
    decreases frames.len(),
{
    if frames.len() > 0 {
        lemma_run_spin(state, frames.drop_last());
    }
}

/// The frame that ends a spin puts the particle one nudge below the place
/// drawn for it, or on the bottom row where a nudge would take it further.
pub proof fn lemma_last_spin_frame_sinks(state: GameModel, elapsed: nat, respin: Position)
    requires
        state.is_spinning,
        !state.is_game_over,
        state.spin_frame_count + 1 >= SPIN_FRAMES,
    ensures
        ({
            let after = state.tick(elapsed, respin);
            &&& after.x == respin.x
            &&& after.y == GameModel::sink(respin.y as int)
            &&& respin.y <= Y_MAX ==> respin.y <= after.y <= Y_MAX
        }),
{
}

/// After a spin, in a game that is not over, each frame takes the particle
/// one nudge down, but not below the bottom row, until it is at the settling
/// height, where the counter starts over; from then on the particle rests.
pub proof fn lemma_sink_or_rest(state: GameModel, elapsed: nat, respin: Position)
    requires
        !state.is_spinning,
        !state.is_game_over,
    ensures
        ({
            let after = state.tick(elapsed, respin);
            &&& after.x == state.x
            &&& if state.spin_frame_count < SPIN_FRAMES {
                after.y == state.y && after.spin_frame_count == state.spin_frame_count
            } else if state.y + NUDGE < SETTLE_Y {
                after.y == state.y + NUDGE && after.spin_frame_count == state.spin_frame_count
            } else {
                after.y == GameModel::sink(state.y) && after.spin_frame_count == 0
            }
        }),
{
}

/// A particle that sinks arrives: over frames without a click, in a game
/// that is still not over after them, it has sunk one nudge per frame as
/// long as that leaves it above the settling height. Otherwise it has
/// settled between that height and the bottom row and the counter has
/// started over; if it set out above the settling height, it rests less than
/// one nudge below it.
pub proof fn lemma_run_sinks(state: GameModel, frames: Seq<Frame>)
    requires
        state.in_panel(),
        !state.is_spinning,
        state.spin_frame_count >= SPIN_FRAMES,
        frames.len() >= 1,
        !state.run(frames).is_game_over,
    ensures
        ({
            let after = state.run(frames);
            &&& after.x == state.x
            &&& !after.is_spinning
            &&& if state.y + frames.len() * NUDGE < SETTLE_Y {
                after.y == state.y + frames.len() * NUDGE && after.spin_frame_count
                    == state.spin_frame_count
            } else {
                &&& after.spin_frame_count == 0
                &&& SETTLE_Y <= after.y <= Y_MAX
                &&& state.y < SETTLE_Y ==> after.y < SETTLE_Y + NUDGE
            }
        }),
    decreases frames.len(),
{
    let before = state.run(frames.drop_last());
    assert(!before.is_game_over);
    if frames.len() > 1 {
        lemma_run_sinks(state, frames.drop_last());
    } else {
        assert(before == state);
    }
}

/// In a game that is not over, a frame takes one second off the clock
/// exactly when the time gathered so far and the frame's own come to more
/// than a second, and then the gathering starts over; otherwise the clock
/// stands and the frame's time is gathered. Once the game is over a frame
/// changes nothing at all. No frame changes the score.
pub proof fn lemma_tick_clock(state: GameModel, elapsed: nat, respin: Position)
    requires
        state.wf(),
    ensures
        ({
            let after = state.tick(elapsed, respin);
            let total = state.elapsed_since_last_second + elapsed;
            &&& !state.is_game_over && total > ONE_SECOND ==> after.countdown == state.countdown
                - 1 && after.elapsed_since_last_second == 0
            &&& !state.is_game_over && total <= ONE_SECOND ==> after.countdown == state.countdown
                && after.elapsed_since_last_second == total
            &&& state.is_game_over ==> after == state
            &&& after.score == state.score
        }),
{
}

/// A frame never scores and never notes the mouse, it leaves the particle's
/// looks as they are, and it never puts time on the clock: a clock at zero
/// stays at zero.
pub proof fn lemma_tick_leaves_what_clicks_set(state: GameModel, elapsed: nat, respin: Position)
    ensures
        ({
            let after = state.tick(elapsed, respin);
            &&& after.score == state.score
            &&& after.mouse_down == state.mouse_down
            &&& after.particle == state.particle
            &&& after.countdown <= state.countdown
        }),
{
}

/// Over any number of frames without a click the clock never goes up and the
/// score stands, a game that is over stays as it is, and every second that
/// the clock lost was paid for with more than a second of elapsed time.
pub proof fn lemma_run_clock(state: GameModel, frames: Seq<Frame>)
    ensures
        ({
            let after = state.run(frames);
            &&& after.countdown <= state.countdown
            &&& after.score == state.score
            &&& state.is_game_over ==> after == state
            &&& (state.countdown - after.countdown) * (ONE_SECOND + 1)
                + after.elapsed_since_last_second <= state.elapsed_since_last_second
                + total_elapsed(frames)
        }),
    decreases frames.len(),
{
    if frames.len() > 0 {
        lemma_run_clock(state, frames.drop_last());
    }
}

/// Frames that each take more than a second take one second each off the
/// clock of a running game, until the clock stands at zero and the game is
/// over. The score stands throughout.
pub proof fn lemma_run_of_long_frames(state: GameModel, frames: Seq<Frame>)
    requires
        !state.is_game_over,
        state.countdown > 0,
        forall|i: int| 0 <= i < frames.len() ==> (#[trigger] frames[i]).elapsed > ONE_SECOND,
    ensures
        ({
            let after = state.run(frames);
            &&& after.score == state.score
            &&& if frames.len() < state.countdown {
                !after.is_game_over && after.countdown == state.countdown - frames.len()
            } else {
                after.is_game_over && after.countdown == 0
            }
        }),
    decreases frames.len(),
{
    if frames.len() > 0 {
        lemma_run_of_long_frames(state, frames.drop_last());
    }
}

/// A frame keeps the clock and the game-over flag in agreement: if the game
/// was over exactly when the clock stood at zero, it still is.
pub proof fn lemma_tick_keeps_clock_agreement(state: GameModel, elapsed: nat, respin: Position)
    requires
        state.clock_agrees(),
    ensures
        state.tick(elapsed, respin).clock_agrees(),
{
}

/// Frames without a click keep the clock and the game-over flag in
/// agreement.
pub proof fn lemma_run_keeps_clock_agreement(state: GameModel, frames: Seq<Frame>)
    requires
        state.clock_agrees(),
    ensures
        state.run(frames).clock_agrees(),
    decreases frames.len(),
{
    if frames.len() > 0 {
        lemma_run_keeps_clock_agreement(state, frames.drop_last());
    }
}

/// A click keeps the clock and the game-over flag in agreement, unless it
/// finds the particle of a game that is over.
pub proof fn lemma_click_keeps_clock_agreement(
    state: GameModel,
    x: int,
    y: int,
    respawn_x: int,
    fresh: Particle,
)
    requires
        state.clock_agrees(),
        !(state.is_game_over && state.hits(Target::Particle, x, y)),
    ensures
        state.click(x, y, respawn_x, fresh).clock_agrees(),
{
}

/// A click that finds the particle of a game that is over scores and puts
/// the bonus on a clock that no frame will run down: the game stays over
/// with a clock above zero, until a reset.
pub proof fn lemma_late_find_leaves_game_over(
    state: GameModel,
    x: int,
    y: int,
    respawn_x: int,
    fresh: Particle,
)
    requires
        state.is_game_over,
        state.hits(Target::Particle, x, y),
    ensures
        ({
            let after = state.click(x, y, respawn_x, fresh);
            &&& after.is_game_over
            &&& after.score == state.score + 1
            &&& after.countdown == state.countdown + TIME_BONUS
            &&& !after.clock_agrees()
        }),
{
}

/// In a well-formed state the three regions lie apart: no point is in two of
/// them, so that the order in which a click looks at them never decides, and
/// a click lands on a target exactly when it is in that target's region.
pub proof fn lemma_targets_exclusive(state: GameModel, x: int, y: int)
    requires
        state.wf(),
    ensures
        !(state.hits(Target::Particle, x, y) && state.hits(Target::Spin, x, y)),
        !(state.hits(Target::Particle, x, y) && state.hits(Target::Reset, x, y)),
        !(state.hits(Target::Spin, x, y) && state.hits(Target::Reset, x, y)),
        forall|target: Target|
            state.target_at(x, y) == Some(target) <==> #[trigger] state.hits(target, x, y),
{
}

/// A click exactly on the particle finds it: the score goes up by one, the
/// clock gains the bonus, the gathering of time starts over, and the fresh
/// particle takes the place drawn for it on the bottom row.
pub proof fn lemma_click_on_particle_scores(state: GameModel, respawn_x: int, fresh: Particle)
    ensures
        state.click(state.x, state.y, respawn_x, fresh) == (GameModel {
            x: respawn_x,
            y: Y_MAX as int,
            particle: fresh,
            score: state.score + 1,
            countdown: state.countdown + TIME_BONUS as nat,
            elapsed_since_last_second: 0,
            mouse_down: true,
            ..state
        }),
{
}

/// A click that lands on no target only notes that the mouse was pressed.
pub proof fn lemma_miss_changes_nothing(
    state: GameModel,
    x: int,
    y: int,
    respawn_x: int,
    fresh: Particle,
)
    requires
        state.target_at(x, y) is None,
    ensures
        state.click(x, y, respawn_x, fresh) == (GameModel { mouse_down: true, ..state }),
{
}

/// A click on the spin button starts a spin and changes nothing else but
/// the note of the mouse.
pub proof fn lemma_spin_click_starts_spin(
    state: GameModel,
    x: int,
    y: int,
    respawn_x: int,
    fresh: Particle,
)
    requires
        state.wf(),
        state.hits(Target::Spin, x, y),
    ensures
        state.click(x, y, respawn_x, fresh) == (GameModel {
            is_spinning: true,
            mouse_down: true,
            ..state
        }),
{
}

/// A click on the reset button of a well-formed game that is over starts a new
/// round: no score, a full clock, the game not over, a fresh particle at the
/// old one's place.
pub proof fn lemma_reset_restarts(
    state: GameModel,
    x: int,
    y: int,
    respawn_x: int,
    fresh: Particle,
)
    requires
        state.wf(),
        state.is_game_over,
        reset_region().covers(x, y),
    ensures
        state.click(x, y, respawn_x, fresh) == (GameModel {
            score: 0,
            countdown: START_TIME as nat,
            is_game_over: false,
            particle: fresh,
            mouse_down: true,
            ..state
        }),
{
}

/// While the game is not over the reset button is not there: in a
/// well-formed state a click on its place lands on no target.
pub proof fn lemma_reset_needs_game_over(state: GameModel, x: int, y: int)
    requires
        state.wf(),
        !state.is_game_over,
        reset_region().covers(x, y),
    ensures
        state.target_at(x, y) is None,
{
}

} // verus!
