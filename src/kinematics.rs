//! Vertical motion of the bird.
use vstd::prelude::*;

verus! {

/// Subpixels in one pixel.
pub const SUBPIXELS_PER_PIXEL: i64 = 1_000_000;

/// Subpixels in half a pixel.
pub const SUBPIXELS_PER_HALF_PIXEL: i64 = 500_000;

/// Subpixels in a quarter of a pixel.
pub const SUBPIXELS_PER_QUARTER_PIXEL: i64 = 250_000;

/// Radius of the bird's bounding circle: 25 pixels.
pub const BIRD_SIZE: i64 = 25 * SUBPIXELS_PER_PIXEL;

/// Largest vertical speed, in pixels per second, upwards positive.
pub const MAX_SPEED: i64 = 500;

/// Change of the vertical speed applied once in every live frame.
pub const SPEED_DEC: i64 = -20;

/// Bound on the magnitude of every coordinate that a well-formed world holds.
pub const COORD_LIMIT: i64 = 10_000_000_000_000_000;

/// Half of a window extent of `px` pixels, in subpixels.
pub open spec fn half_of(px: int) -> int {
    px * SUBPIXELS_PER_HALF_PIXEL
}

/// A quarter of a window extent of `px` pixels, in subpixels.
pub open spec fn quarter_of(px: int) -> int {
    px * SUBPIXELS_PER_QUARTER_PIXEL
}

/// The speed after one frame's decay: lowered by `SPEED_DEC`, floored at `-MAX_SPEED`.
pub open spec fn decayed_speed(speed: int) -> int {
    if speed + SPEED_DEC < -MAX_SPEED {
        -MAX_SPEED as int
    } else {
        speed + SPEED_DEC
    }
}

/// Applies one frame's speed decay.
pub fn decay_speed(speed: i64) -> (r: i64)
    ensures
        r == decayed_speed(speed as int),
        r >= -MAX_SPEED,
{
    if speed < -MAX_SPEED - SPEED_DEC {
        -MAX_SPEED
    } else {
        speed + SPEED_DEC
    }
}

/// Whether the bird's circle, centred at height `y`, lies within a window
/// `window_height` pixels high (touching an edge is allowed).
pub open spec fn in_flight_band(y: int, window_height: int) -> bool {
    -half_of(window_height) + BIRD_SIZE <= y && y <= half_of(window_height) - BIRD_SIZE
}

/// The bird's height after a frame of `dt` microseconds at `speed`: the whole
/// displacement is applied when it keeps the bird in the window, else none of it.
pub open spec fn moved_height(y: int, speed: int, dt: int, window_height: int) -> int {
    let target = y + speed * dt;
    if in_flight_band(target, window_height) {
        target
    } else {
        y
    }
}

/// Moves the bird vertically for one frame, dropping a displacement that
/// would carry it past the top or bottom of the window.
pub fn move_bird_height(y: i64, speed: i64, dt: u32, window_height: u32) -> (r: i64)
    requires
        -COORD_LIMIT <= y <= COORD_LIMIT,
        -MAX_SPEED <= speed <= MAX_SPEED,
    ensures
        r == moved_height(y as int, speed as int, dt as int, window_height as int),
{
    let dt64 = dt as i64;
    proof {
        assert(-MAX_SPEED * 0x1_0000_0000 <= speed * dt64 <= MAX_SPEED * 0x1_0000_0000)
            by (nonlinear_arith)
            requires
                -MAX_SPEED <= speed <= MAX_SPEED,
                0 <= dt64 < 0x1_0000_0000,
        ;
    }
    let target = y + speed * dt64;
    let half = window_height as i64 * SUBPIXELS_PER_HALF_PIXEL;
    if -half + BIRD_SIZE <= target && target <= half - BIRD_SIZE {
        target
    } else {
        y
    }
}

/// A bird that starts inside the window stays inside it, and a frame's
/// displacement is applied whole or dropped whole, never cut short.
pub proof fn lemma_soft_clamp(y: int, speed: int, dt: int, window_height: int)
    requires
        in_flight_band(y, window_height),
    ensures
        in_flight_band(moved_height(y, speed, dt, window_height), window_height),
        in_flight_band(y + speed * dt, window_height)
            ==> moved_height(y, speed, dt, window_height) == y + speed * dt,
        !in_flight_band(y + speed * dt, window_height)
            ==> moved_height(y, speed, dt, window_height) == y,
{
}

} // verus!
