//! The game's counters and flags, and the pipe spawn timer.
use vstd::prelude::*;
use crate::kinematics::MAX_SPEED;

verus! {

/// Interval between two pipe pairs: 2 seconds, in microseconds.
pub const SPAWN_INTERVAL_MICROS: u64 = 2_000_000;

/// Largest timer duration, so that a tick never overflows.
pub const MAX_TIMER_MICROS: u64 = 0x4000_0000_0000_0000;

/// Score, phase flags and the bird's vertical speed (pixels per second).
#[derive(Clone, Copy, Debug, PartialEq, Eq, Structural)]
pub struct GameState {
    pub score: u64,
    pub alive: bool,
    pub speed_y: i64,
    pub game_over: bool,
}

/// The state before the first flight.
pub open spec fn initial_state() -> GameState {
    GameState { score: 0, alive: false, speed_y: 0, game_over: false }
}

/// The state at the start of a flight.
pub open spec fn started_state() -> GameState {
    GameState { score: 0, alive: true, speed_y: 0, game_over: false }
}

/// The flags never say both alive and over, and the speed is within bounds.
pub open spec fn state_wf(s: GameState) -> bool {
    &&& !(s.alive && s.game_over)
    &&& -MAX_SPEED <= s.speed_y <= MAX_SPEED
}

/// `score + gained`, held at `u64::MAX`.
pub open spec fn saturating_score(score: int, gained: int) -> int {
    if score + gained > u64::MAX {
        u64::MAX as int
    } else {
        score + gained
    }
}

impl GameState {
    pub fn new() -> (r: GameState)
        ensures
            r == initial_state(),
    {
        GameState { score: 0, alive: false, speed_y: 0, game_over: false }
    }

    /// A jump: the vertical speed becomes `MAX_SPEED`, whatever it was.
    pub fn jump(&mut self)
        ensures
            *final(self) == (GameState { speed_y: MAX_SPEED, ..*old(self) }),
            final(self).speed_y == MAX_SPEED,
    {
        self.speed_y = MAX_SPEED;
    }
}

/// A repeating countdown, in microseconds.
#[derive(Clone, Copy, Debug, PartialEq, Eq, Structural)]
pub struct SpawnPipeTimer {
    pub duration: u64,
    pub elapsed: u64,
}

pub open spec fn timer_wf(t: SpawnPipeTimer) -> bool {
    0 < t.duration <= MAX_TIMER_MICROS && t.elapsed < t.duration
}

/// The spawn timer as it starts: a 2 second period, nothing elapsed.
pub open spec fn fresh_timer() -> SpawnPipeTimer {
    SpawnPipeTimer { duration: SPAWN_INTERVAL_MICROS, elapsed: 0 }
}

/// The timer reaches its period during a tick of `dt` microseconds.
pub open spec fn fires(t: SpawnPipeTimer, dt: int) -> bool {
    t.elapsed + dt >= t.duration
}

/// The timer after a tick of `dt` microseconds: on reaching its period it
/// starts over, keeping what went beyond.
pub open spec fn ticked(t: SpawnPipeTimer, dt: int) -> SpawnPipeTimer {
    if fires(t, dt) {
        SpawnPipeTimer { elapsed: ((t.elapsed + dt) % (t.duration as int)) as u64, ..t }
    } else {
        SpawnPipeTimer { elapsed: (t.elapsed + dt) as u64, ..t }
    }
}

impl SpawnPipeTimer {
    pub fn new() -> (r: SpawnPipeTimer)
        ensures
            r == fresh_timer(),
            timer_wf(r),
    {
        SpawnPipeTimer { duration: SPAWN_INTERVAL_MICROS, elapsed: 0 }
    }

    /// Whether a tick of `dt` microseconds would make the timer fire.
    pub fn fires_after(&self, dt: u32) -> (r: bool)
        requires
            timer_wf(*self),
        ensures
            r == fires(*self, dt as int),
    {
        self.elapsed + dt as u64 >= self.duration
    }

    /// Advances the timer by `dt` microseconds; returns whether it fired.
    pub fn tick(&mut self, dt: u32) -> (r: bool)
        requires
            timer_wf(*old(self)),
        ensures
            r == fires(*old(self), dt as int),
            *final(self) == ticked(*old(self), dt as int),
            timer_wf(*final(self)),
    {
        let total = self.elapsed + dt as u64;
        if total >= self.duration {
            self.elapsed = total % self.duration;
            true
        } else {
            self.elapsed = total;
            false
        }
    }
}

} // verus!
