use vstd::prelude::*;

use crate::game::{
    lemma_step_keeps_wf, lemma_tap_keeps_wf, started, stepped, tappable, tapped, updatable,
};
use crate::models::{FULL_TURN, GameState, MAX_SPEED, MIN_WINDOW, START_LIVES, START_SPEED, START_WINDOW};

verus! {

/// One event that a host hands the engine.
pub enum Input {
    /// A simulation step of the given number of microseconds.
    Frame(u64),
    /// A tap; the draw places the next target zone should it hit.
    Tap(u32),
}

/// Whether the engine's operation for `i` may be called on `s`.
pub open spec fn admits(s: GameState, i: Input) -> bool {
    match i {
        Input::Frame(dt) => updatable(s, dt),
        Input::Tap(_) => tappable(s),
    }
}

/// The session after the engine's operation for `i`.
pub open spec fn apply(s: GameState, i: Input) -> GameState {
    match i {
        Input::Frame(dt) => stepped(s, dt),
        Input::Tap(draw) => tapped(s, draw),
    }
}

/// The session after a sequence of inputs, in order.
pub open spec fn run(s: GameState, inputs: Seq<Input>) -> GameState
    decreases inputs.len(),
{
    if inputs.len() == 0 {
        s
    } else {
        run(apply(s, inputs[0]), inputs.drop_first())
    }
}

/// Whether every input of the sequence may be applied, in order, from `s`.
pub open spec fn admits_all(s: GameState, inputs: Seq<Input>) -> bool
    decreases inputs.len(),
{
    inputs.len() == 0 || (admits(s, inputs[0]) && admits_all(apply(s, inputs[0]), inputs.drop_first()))
}

/// Every admitted sequence of inputs keeps the session invariant.
pub proof fn lemma_run_keeps_wf(s: GameState, inputs: Seq<Input>)
    requires
        s.wf(),
        admits_all(s, inputs),
    ensures
        run(s, inputs).wf(),
    decreases inputs.len(),
{
    if inputs.len() > 0 {
        match inputs[0] {
            Input::Frame(dt) => lemma_step_keeps_wf(s, dt),
            Input::Tap(draw) => lemma_tap_keeps_wf(s, draw),
        }
        lemma_run_keeps_wf(apply(s, inputs[0]), inputs.drop_first());
    }
}

/// The pointer stays within one revolution, `[0, 2π)`, after any sequence
/// of steps and taps.
pub proof fn angle_stays_bounded(s: GameState, inputs: Seq<Input>)
    requires
        s.wf(),
        admits_all(s, inputs),
    ensures
        0 <= run(s, inputs).angle < FULL_TURN,
{
    lemma_run_keeps_wf(s, inputs);
}

/// The score never decreases.
pub proof fn score_never_decreases(s: GameState, inputs: Seq<Input>)
    requires
        admits_all(s, inputs),
    ensures
        run(s, inputs).score >= s.score,
    decreases inputs.len(),
{
    if inputs.len() > 0 {
        score_never_decreases(apply(s, inputs[0]), inputs.drop_first());
    }
}

/// From construction on, the speed stays between its start value and its cap.
pub proof fn speed_stays_bounded(draw: u32, inputs: Seq<Input>)
    requires
        admits_all(started(draw), inputs),
    ensures
        START_SPEED <= run(started(draw), inputs).speed <= MAX_SPEED,
{
    lemma_run_keeps_wf(started(draw), inputs);
}

/// From construction on, the target zone's half-width stays between its
/// floor and its start value.
pub proof fn hit_window_stays_bounded(draw: u32, inputs: Seq<Input>)
    requires
        admits_all(started(draw), inputs),
    ensures
        MIN_WINDOW <= run(started(draw), inputs).hit_window <= START_WINDOW,
{
    lemma_run_keeps_wf(started(draw), inputs);
}

/// From construction on, the lives left stay between zero and the start count.
pub proof fn lives_stay_bounded(draw: u32, inputs: Seq<Input>)
    requires
        admits_all(started(draw), inputs),
    ensures
        0 <= run(started(draw), inputs).lives <= START_LIVES,
{
    lemma_run_keeps_wf(started(draw), inputs);
}

/// A finished session is frozen: no later input changes anything, the
/// pointer and the play time included.
pub proof fn finished_session_is_frozen(s: GameState, inputs: Seq<Input>)
    requires
        s.game_over,
    ensures
        run(s, inputs) == s,
        run(s, inputs).angle == s.angle,
        run(s, inputs).time_alive == s.time_alive,
    decreases inputs.len(),
{
    if inputs.len() > 0 {
        finished_session_is_frozen(apply(s, inputs[0]), inputs.drop_first());
    }
}

/// A session ends in exactly the call that takes its lives from one to zero:
/// it is over after a call if and only if no life is left, and it becomes
/// over in a call if and only if that call took the last life.
pub proof fn game_over_exactly_at_zero_lives(s: GameState, i: Input)
    requires
        s.wf(),
    ensures
        apply(s, i).game_over <==> apply(s, i).lives == 0,
        (!s.game_over && apply(s, i).game_over) <==> (s.lives == 1 && apply(s, i).lives == 0),
{
}

} // verus!
