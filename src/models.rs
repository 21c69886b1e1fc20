use vstd::prelude::*;

verus! {

/// One full revolution, 2π radians, in microradians.
pub const FULL_TURN: u32 = 6_283_185;

/// Microseconds in one second: the unit of elapsed and accumulated time.
pub const MICROS_PER_SECOND: u64 = 1_000_000;

/// Speed of a fresh session, 2.5 rad/s, in microradians per second.
pub const START_SPEED: u32 = 2_500_000;

/// Speed cap, 5.5 rad/s.
pub const MAX_SPEED: u32 = 5_500_000;

/// Fixed speed gain on every hit, 0.08 rad/s.
pub const SPEED_STEP: u32 = 80_000;

/// Extra speed gain per point of score on a hit, 0.0002 rad/s.
pub const SPEED_PER_POINT: u32 = 200;

/// Half-width of the target zone in a fresh session, 0.25 rad.
pub const START_WINDOW: u32 = 250_000;

/// Floor of the target zone's half-width, 0.05 rad.
pub const MIN_WINDOW: u32 = 50_000;

/// Share of the half-width, in percent, that a hit leaves.
pub const WINDOW_KEEP_PERCENT: u32 = 97;

/// Misses allowed in a fresh session.
pub const START_LIVES: u8 = 3;

/// The whole state of one play session.
#[derive(Clone, Copy, Debug, PartialEq, Eq, Structural)]
pub struct GameState {
    /// Pointer position, in microradians.
    pub angle: u32,
    /// Pointer angular velocity, in microradians per second.
    pub speed: u32,
    /// Centre of the target zone, in microradians.
    pub dot_angle: u32,
    /// Number of hits so far.
    pub score: u32,
    /// Misses still allowed.
    pub lives: u8,
    /// Half-width of the target zone, in microradians.
    pub hit_window: u32,
    /// Time played, in microseconds.
    pub time_alive: u64,
    /// Set once the last life is lost; the session is then frozen.
    pub game_over: bool,
}

impl GameState {
    /// The invariant of every session reachable from a fresh one.
    pub open spec fn wf(self) -> bool {
        &&& self.angle < FULL_TURN
        &&& self.dot_angle < FULL_TURN
        &&& START_SPEED <= self.speed <= MAX_SPEED
        &&& MIN_WINDOW <= self.hit_window <= START_WINDOW
        &&& self.lives <= START_LIVES
        &&& (self.game_over <==> self.lives == 0)
    }
}

} // verus!
