use vstd::prelude::*;

use crate::models::{
    FULL_TURN, GameState, MAX_SPEED, MICROS_PER_SECOND, MIN_WINDOW, SPEED_PER_POINT, SPEED_STEP,
    START_LIVES, START_SPEED, START_WINDOW, WINDOW_KEEP_PERCENT,
};

verus! {

/// Number of equally likely values of a random draw: a draw `d` stands for
/// the fraction `d / DRAW_RANGE` of the unit interval.
pub const DRAW_RANGE: u64 = 0x1_0000_0000;

/// The angle that a draw picks: the draw's fraction of a full turn.
pub open spec fn angle_of_draw(draw: u32) -> int {
    draw as int * FULL_TURN as int / DRAW_RANGE as int
}

/// A fresh session whose target zone sits at the angle `draw` picks.
pub open spec fn started(draw: u32) -> GameState {
    GameState {
        angle: 0,
        speed: START_SPEED,
        dot_angle: angle_of_draw(draw) as u32,
        score: 0,
        lives: START_LIVES,
        hit_window: START_WINDOW,
        time_alive: 0,
        game_over: false,
    }
}

/// Every draw picks an angle within one turn.
pub proof fn lemma_angle_of_draw_in_range(draw: u32)
    ensures
        0 <= angle_of_draw(draw) < FULL_TURN,
{
    let d: int = draw as int;
    let turn: int = FULL_TURN as int;
    let range: int = DRAW_RANGE as int;
    assert(0 <= d * turn / range < turn) by (nonlinear_arith)
        requires
            0 <= d < range,
            0 < turn,
    ;
}

/// Maps a uniform draw over `0..DRAW_RANGE` onto an angle in `[0, 2π)`.
pub fn rand_angle(draw: u32) -> (r: u32)
    ensures
        r == angle_of_draw(draw),
        r < FULL_TURN,
{
    proof {
        lemma_angle_of_draw_in_range(draw);
    }
    ((draw as u64 * FULL_TURN as u64) / DRAW_RANGE) as u32
}

/// Starts a session; `draw` places the first target zone.
pub fn new_game(draw: u32) -> (s: GameState)
    ensures
        s == started(draw),
        s.wf(),
{
    GameState {
        angle: 0,
        speed: START_SPEED,
        dot_angle: rand_angle(draw),
        score: 0,
        lives: START_LIVES,
        hit_window: START_WINDOW,
        time_alive: 0,
        game_over: false,
    }
}

/// How far, in microradians, the pointer turns at `speed` in `dt` microseconds.
pub open spec fn advance(speed: u32, dt: u64) -> int {
    speed as int * dt as int / MICROS_PER_SECOND as int
}

/// Brings an angle of less than two turns back by one turn if it has
/// completed a revolution.
pub open spec fn wrap(a: int) -> int {
    if a >= FULL_TURN {
        a - FULL_TURN
    } else {
        a
    }
}

/// What `update` asks of its inputs: a live session must turn by less than
/// one revolution in the step, and its play time must stay representable.
pub open spec fn updatable(s: GameState, dt: u64) -> bool {
    s.game_over || (advance(s.speed, dt) < FULL_TURN && s.time_alive + dt <= u64::MAX)
}

/// The session after a simulation step of `dt` microseconds.
pub open spec fn stepped(s: GameState, dt: u64) -> GameState {
    if s.game_over {
        s
    } else {
        GameState {
            angle: wrap(s.angle + advance(s.speed, dt)) as u32,
            time_alive: (s.time_alive + dt) as u64,
            ..s
        }
    }
}

/// Raw distance between two angles (not the shorter arc round the circle).
pub open spec fn distance(a: u32, b: u32) -> int {
    if a >= b {
        a - b
    } else {
        b - a
    }
}

/// Whether a tap now lands inside the target zone.
pub open spec fn is_hit(s: GameState) -> bool {
    distance(s.angle, s.dot_angle) < s.hit_window
}

/// Speed after a hit that brought the score to `score`: a fixed gain plus a
/// gain per point, capped.
pub open spec fn raised_speed(speed: u32, score: u32) -> int {
    let raised: int = speed + SPEED_STEP + score * SPEED_PER_POINT;
    if raised > MAX_SPEED {
        MAX_SPEED as int
    } else {
        raised
    }
}

/// Half-width of the target zone after a hit: shrunk by a fixed share,
/// rounded down, and floored.
pub open spec fn narrowed_window(w: u32) -> int {
    let shrunk: int = w * WINDOW_KEEP_PERCENT / 100;
    if shrunk < MIN_WINDOW {
        MIN_WINDOW as int
    } else {
        shrunk
    }
}

/// What `tap` asks of its inputs: a hit on a live session must leave a
/// representable score.
pub open spec fn tappable(s: GameState) -> bool {
    s.game_over || !is_hit(s) || s.score < u32::MAX
}

/// The session after a tap; `draw` places the next target zone on a hit.
/// A finished session ignores taps.
pub open spec fn tapped(s: GameState, draw: u32) -> GameState {
    if s.game_over {
        s
    } else if is_hit(s) {
        let score: u32 = (s.score + 1) as u32;
        GameState {
            score: score,
            speed: raised_speed(s.speed, score) as u32,
            hit_window: narrowed_window(s.hit_window) as u32,
            dot_angle: angle_of_draw(draw) as u32,
            ..s
        }
    } else if s.lives > 0 {
        GameState { lives: (s.lives - 1) as u8, game_over: s.lives == 1, ..s }
    } else {
        s
    }
}

/// An admitted simulation step keeps the session invariant.
pub proof fn lemma_step_keeps_wf(s: GameState, dt: u64)
    requires
        s.wf(),
        updatable(s, dt),
    ensures
        stepped(s, dt).wf(),
{
}

/// A tap keeps the session invariant, whatever the draw.
pub proof fn lemma_tap_keeps_wf(s: GameState, draw: u32)
    requires
        s.wf(),
    ensures
        tapped(s, draw).wf(),
{
    lemma_angle_of_draw_in_range(draw);
}

/// Whether `update(state, dt)` may be called.
pub fn can_update(state: &GameState, dt: u64) -> (r: bool)
    ensures
        r == updatable(*state, dt),
{
    if state.game_over {
        return true;
    }
    let speed: u128 = state.speed as u128;
    let elapsed: u128 = dt as u128;
    assert(speed * elapsed <= u128::MAX) by (nonlinear_arith)
        requires
            speed <= u32::MAX,
            elapsed <= u64::MAX,
    ;
    let product: u128 = speed * elapsed;
    product / (MICROS_PER_SECOND as u128) < FULL_TURN as u128 && state.time_alive as u128 + dt as u128
        <= u64::MAX as u128
}

/// Advances the session by `dt` microseconds: play time grows by `dt`, the
/// pointer turns by `speed * dt`, and one revolution is taken off once it
/// completes one (landing exactly on a full turn counts), so the angle stays
/// in `[0, 2π)`. A finished session is left as it is.
pub fn update(state: &mut GameState, dt: u64)
    requires
        old(state).wf(),
        updatable(*old(state), dt),
    ensures
        *final(state) == stepped(*old(state), dt),
        final(state).wf(),
{
    proof {
        lemma_step_keeps_wf(*state, dt);
    }
    if state.game_over {
        return;
    }
    state.time_alive = state.time_alive + dt;
    let turned: u32 = (state.speed as u64 * dt / MICROS_PER_SECOND) as u32;
    let mut angle: u32 = state.angle + turned;
    if angle >= FULL_TURN {
        angle = angle - FULL_TURN;
    }
    state.angle = angle;
}

/// Whether `tap(state, draw)` may be called.
pub fn can_tap(state: &GameState) -> (r: bool)
    ensures
        r == tappable(*state),
{
    state.game_over || distance_of(state.angle, state.dot_angle) >= state.hit_window || state.score
        < u32::MAX
}

/// Raw distance between two angles.
pub fn distance_of(a: u32, b: u32) -> (r: u32)
    ensures
        r == distance(a, b),
{
    if a >= b {
        a - b
    } else {
        b - a
    }
}

/// Resolves a tap. The pointer is inside the target zone when the raw
/// difference of the two angles (not the shorter arc) is below the
/// half-width. Inside the target zone it scores a point, speeds the
/// pointer up, narrows the zone and moves it to the angle `draw` picks;
/// outside it costs a life, and losing the last one ends the session. A
/// finished session ignores taps.
pub fn tap(state: &mut GameState, draw: u32)
    requires
        old(state).wf(),
        tappable(*old(state)),
    ensures
        *final(state) == tapped(*old(state), draw),
        final(state).wf(),
{
    proof {
        lemma_tap_keeps_wf(*state, draw);
    }
    if state.game_over {
        return;
    }
    let diff: u32 = distance_of(state.angle, state.dot_angle);
    if diff < state.hit_window {
        state.score = state.score + 1;
        let raised: u64 = state.speed as u64 + SPEED_STEP as u64 + state.score as u64
            * SPEED_PER_POINT as u64;
        state.speed = if raised > MAX_SPEED as u64 {
            MAX_SPEED
        } else {
            raised as u32
        };
        let shrunk: u64 = state.hit_window as u64 * WINDOW_KEEP_PERCENT as u64 / 100;
        state.hit_window = if shrunk < MIN_WINDOW as u64 {
            MIN_WINDOW
        } else {
            shrunk as u32
        };
        state.dot_angle = rand_angle(draw);
    } else if state.lives > 0 {
        state.lives = state.lives - 1;
        if state.lives == 0 {
            state.game_over = true;
        }
    }
}

} // verus!
