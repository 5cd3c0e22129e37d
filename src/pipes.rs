//! Spawning, scrolling, culling and scoring of pipes, and their collisions
//! with the bird.
use vstd::prelude::*;
use crate::collision::{box_intersects_circle, circle_meets_box};
use crate::components::{Bird, Pipe, PipePassed};
use crate::kinematics::{half_of, quarter_of, BIRD_SIZE, COORD_LIMIT, SUBPIXELS_PER_HALF_PIXEL,
    SUBPIXELS_PER_PIXEL, SUBPIXELS_PER_QUARTER_PIXEL};

verus! {

/// Width of every pipe: 50 pixels.
pub const PIPE_WIDTH: i64 = 50 * SUBPIXELS_PER_PIXEL;

/// The fixed gap constant of a pipe pair: 100 pixels.
pub const GAP: i64 = 100 * SUBPIXELS_PER_PIXEL;

/// Half of `GAP`.
pub const HALF_GAP: i64 = 50 * SUBPIXELS_PER_PIXEL;

/// Half of `PIPE_WIDTH`.
pub const HALF_PIPE_WIDTH: i64 = 25 * SUBPIXELS_PER_PIXEL;

/// Leftward speed of the pipes, in pixels per second.
pub const PIPE_SPEED: i64 = 200;

/// A pipe whose coordinates and height are within `COORD_LIMIT`.
pub open spec fn pipe_wf(p: Pipe) -> bool {
    &&& -COORD_LIMIT <= p.x <= COORD_LIMIT
    &&& -COORD_LIMIT <= p.y <= COORD_LIMIT
    &&& -COORD_LIMIT <= p.height <= COORD_LIMIT
}

pub open spec fn pipes_wf(s: Seq<Pipe>) -> bool {
    forall|i: int| 0 <= i < s.len() ==> #[trigger] pipe_wf(s[i])
}

/// Largest magnitude of the random vertical offset of a pipe pair in a
/// window `h` pixels high: a quarter of the height less `GAP`, and 0 where
/// that would be negative.
pub open spec fn max_gap_offset(h: int) -> int {
    if quarter_of(h) >= GAP {
        quarter_of(h) - GAP
    } else {
        0
    }
}

/// Horizontal position at which pipes appear: just beyond the right edge.
pub open spec fn spawn_x(w: int) -> int {
    half_of(w) + HALF_PIPE_WIDTH
}

pub open spec fn top_pipe_y(h: int, offset: int) -> int {
    quarter_of(h) + HALF_GAP + offset
}

pub open spec fn bottom_pipe_y(h: int, offset: int) -> int {
    -quarter_of(h) - HALF_GAP + offset
}

/// The upper pipe of a pair: its top edge is the window's top edge.
pub open spec fn top_pipe(w: int, h: int, offset: int) -> Pipe {
    Pipe {
        x: spawn_x(w) as i64,
        y: top_pipe_y(h, offset) as i64,
        height: ((half_of(h) - top_pipe_y(h, offset)) * 2) as i64,
        passed: PipePassed(false),
    }
}

/// The lower pipe of a pair: its bottom edge is the window's bottom edge. It
/// starts as passed, so that each pair is scored once, through its upper pipe.
pub open spec fn bottom_pipe(w: int, h: int, offset: int) -> Pipe {
    Pipe {
        x: spawn_x(w) as i64,
        y: bottom_pipe_y(h, offset) as i64,
        height: ((half_of(h) + bottom_pipe_y(h, offset)) * 2) as i64,
        passed: PipePassed(true),
    }
}

/// Builds the pipe pair that appears at the right edge of a `w` by `h` pixel
/// window, shifted vertically by `offset` subpixels.
pub fn spawn_pipe_pair(w: u32, h: u32, offset: i64) -> (r: (Pipe, Pipe))
    requires
        -max_gap_offset(h as int) <= offset <= max_gap_offset(h as int),
    ensures
        r.0 == top_pipe(w as int, h as int, offset as int),
        r.1 == bottom_pipe(w as int, h as int, offset as int),
        pipe_wf(r.0),
        pipe_wf(r.1),
{
    let x = w as i64 * SUBPIXELS_PER_HALF_PIXEL + HALF_PIPE_WIDTH;
    let quarter = h as i64 * SUBPIXELS_PER_QUARTER_PIXEL;
    let half = h as i64 * SUBPIXELS_PER_HALF_PIXEL;
    let top_y = quarter + HALF_GAP + offset;
    let bottom_y = -quarter - HALF_GAP + offset;
    let top = Pipe { x, y: top_y, height: (half - top_y) * 2, passed: PipePassed(false) };
    let bottom = Pipe { x, y: bottom_y, height: (half + bottom_y) * 2, passed: PipePassed(true) };
    (top, bottom)
}

/// Whatever the offset, the centres of a pair lie half a window plus `GAP`
/// apart, the opening between the pipes' inner edges is twice `GAP`, and each
/// pipe's outer edge is the window's edge.
pub proof fn lemma_pipe_pair_gap(w: int, h: int, offset: int)
    requires
        0 <= w < 0x1_0000_0000,
        0 <= h < 0x1_0000_0000,
        -max_gap_offset(h) <= offset <= max_gap_offset(h),
    ensures
        ({
            let top = top_pipe(w, h, offset);
            let bottom = bottom_pipe(w, h, offset);
            &&& top.y - bottom.y == half_of(h) + GAP
            &&& (top.y - quarter_of(h)) - (bottom.y + quarter_of(h)) == GAP
            &&& (2 * top.y - top.height) - (2 * bottom.y + bottom.height) == 4 * GAP
            &&& 2 * top.y + top.height == 2 * half_of(h)
            &&& 2 * bottom.y - bottom.height == -2 * half_of(h)
            &&& top.x == bottom.x
        }),
{
}

/// The line past which a pipe has left the window on the left.
pub open spec fn cull_line(w: int) -> int {
    -(half_of(w) + HALF_PIPE_WIDTH)
}

/// A pipe's horizontal position after `dt` microseconds of scrolling.
pub open spec fn shifted_x(p: Pipe, dt: int) -> int {
    p.x - PIPE_SPEED * dt
}

/// After this frame's scrolling, the pipe is gone past the left edge.
pub open spec fn is_culled(p: Pipe, dt: int, w: int) -> bool {
    shifted_x(p, dt) < cull_line(w)
}

/// After this frame's scrolling, a pipe still in play has gone past the bird.
pub open spec fn is_past_bird(p: Pipe, dt: int) -> bool {
    shifted_x(p, dt) < -PIPE_WIDTH
}

/// This frame scores the pipe: it stays in play, is past the bird, and was
/// not counted before.
pub open spec fn scores(p: Pipe, dt: int, w: int) -> bool {
    !is_culled(p, dt, w) && is_past_bird(p, dt) && !p.passed.0
}

/// A pipe that stays in play, after this frame's scrolling.
pub open spec fn advanced_pipe(p: Pipe, dt: int) -> Pipe {
    Pipe { x: shifted_x(p, dt) as i64, passed: PipePassed(p.passed.0 || is_past_bird(p, dt)), ..p }
}

/// The pipes in play after a frame: each scrolled, those past the left edge
/// removed, order kept.
pub open spec fn advanced_pipes(s: Seq<Pipe>, dt: int, w: int) -> Seq<Pipe>
    decreases s.len(),
{
    if s.len() == 0 {
        Seq::empty()
    } else {
        let rest = advanced_pipes(s.drop_last(), dt, w);
        if is_culled(s.last(), dt, w) {
            rest
        } else {
            rest.push(advanced_pipe(s.last(), dt))
        }
    }
}

/// The number of pipes that a frame scores.
pub open spec fn points_gained(s: Seq<Pipe>, dt: int, w: int) -> nat
    decreases s.len(),
{
    if s.len() == 0 {
        0
    } else {
        points_gained(s.drop_last(), dt, w) + if scores(s.last(), dt, w) {
            1nat
        } else {
            0nat
        }
    }
}

/// The pipe's box meets the bird's circle. Coordinates are doubled so that
/// the box's half extents, `HALF_PIPE_WIDTH` and `height / 2`, stay whole.
pub open spec fn pipe_hits(p: Pipe, b: Bird) -> bool {
    circle_meets_box(
        2 * p.x - PIPE_WIDTH,
        2 * p.y - p.height,
        2 * p.x + PIPE_WIDTH,
        2 * p.y + p.height,
        2 * b.x,
        2 * b.y,
        2 * BIRD_SIZE,
    )
}

/// Some pipe of `s` meets the bird.
pub open spec fn hits_any(s: Seq<Pipe>, b: Bird) -> bool {
    exists|i: int| 0 <= i < s.len() && #[trigger] pipe_hits(s[i], b)
}

/// Whether the pipe's box meets the bird's circle.
pub fn pipe_hits_bird(p: &Pipe, b: &Bird) -> (r: bool)
    requires
        pipe_wf(*p),
        -COORD_LIMIT <= b.x <= COORD_LIMIT,
        -COORD_LIMIT <= b.y <= COORD_LIMIT,
    ensures
        r == pipe_hits(*p, *b),
{
    box_intersects_circle(2 * p.x, 2 * p.y, PIPE_WIDTH, p.height, 2 * b.x, 2 * b.y, 2 * BIRD_SIZE)
}

/// Whether any pipe meets the bird; every pipe is tested.
pub fn any_pipe_hits_bird(pipes: &Vec<Pipe>, b: &Bird) -> (r: bool)
    requires
        pipes_wf(pipes@),
        -COORD_LIMIT <= b.x <= COORD_LIMIT,
        -COORD_LIMIT <= b.y <= COORD_LIMIT,
    ensures
        r == hits_any(pipes@, *b),
{
    let mut hit = false;
    let mut i: usize = 0;
    while i < pipes.len()
        invariant
            i <= pipes@.len(),
            pipes_wf(pipes@),
            -COORD_LIMIT <= b.x <= COORD_LIMIT,
            -COORD_LIMIT <= b.y <= COORD_LIMIT,
            hit == exists|j: int| 0 <= j < i && #[trigger] pipe_hits(pipes@[j], *b),
        decreases pipes@.len() - i,
    {
        assert(pipe_wf(pipes@[i as int]));
        if pipe_hits_bird(&pipes[i], b) {
            hit = true;
        }
        i += 1;
    }
    hit
}

/// Scrolls one pipe for `dt` microseconds: `None` when it has left the
/// window, else the moved pipe; the flag tells whether it scored.
pub fn advance_pipe(p: &Pipe, dt: u32, w: u32) -> (r: (Option<Pipe>, bool))
    requires
        pipe_wf(*p),
    ensures
        r.0 == (if is_culled(*p, dt as int, w as int) {
            None
        } else {
            Some(advanced_pipe(*p, dt as int))
        }),
        r.1 == scores(*p, dt as int, w as int),
        r.0 matches Some(q) ==> pipe_wf(q),
{
    let x = p.x - PIPE_SPEED * dt as i64;
    let cull = -(w as i64 * SUBPIXELS_PER_HALF_PIXEL + HALF_PIPE_WIDTH);
    if x < cull {
        (None, false)
    } else if x < -PIPE_WIDTH {
        (Some(Pipe { x, passed: PipePassed(true), ..*p }), !p.passed.0)
    } else {
        (Some(Pipe { x, ..*p }), false)
    }
}

/// Scrolls every pipe, removes those that left the window and counts those
/// that the bird passed for the first time.
pub fn advance_pipes(pipes: &Vec<Pipe>, dt: u32, w: u32) -> (r: (Vec<Pipe>, u64))
    requires
        pipes_wf(pipes@),
    ensures
        r.0@ == advanced_pipes(pipes@, dt as int, w as int),
        r.1 == points_gained(pipes@, dt as int, w as int),
        pipes_wf(r.0@),
{
    let mut kept: Vec<Pipe> = Vec::new();
    let mut gained: u64 = 0;
    let mut i: usize = 0;
    while i < pipes.len()
        invariant
            i <= pipes@.len(),
            pipes_wf(pipes@),
            pipes_wf(kept@),
            kept@ == advanced_pipes(pipes@.take(i as int), dt as int, w as int),
            gained == points_gained(pipes@.take(i as int), dt as int, w as int),
            gained <= i,
        decreases pipes@.len() - i,
    {
        assert(pipes@.take(i as int + 1).drop_last() == pipes@.take(i as int));
        assert(pipe_wf(pipes@[i as int]));
        let (moved, scored) = advance_pipe(&pipes[i], dt, w);
        if let Some(q) = moved {
            kept.push(q);
        }
        if scored {
            gained += 1;
        }
        i += 1;
    }
    assert(pipes@.take(pipes@.len() as int) == pipes@);
    (kept, gained)
}

/// A pipe already counted is never counted again: it scores in no frame and
/// stays counted, and pipes that are all counted add no points.
pub proof fn lemma_passed_pipe_never_scores(p: Pipe, s: Seq<Pipe>, dt: int, w: int)
    ensures
        p.passed.0 ==> !scores(p, dt, w) && advanced_pipe(p, dt).passed.0,
        (forall|i: int| 0 <= i < s.len() ==> (#[trigger] s[i]).passed.0) ==> points_gained(s, dt, w) == 0,
    decreases s.len(),
{
    if s.len() > 0 {
        if forall|i: int| 0 <= i < s.len() ==> (#[trigger] s[i]).passed.0 {
            let t = s.drop_last();
            assert forall|i: int| 0 <= i < t.len() implies (#[trigger] t[i]).passed.0 by {
                assert(t[i] == s[i]);
            }
            assert(s[s.len() - 1].passed.0);
            lemma_passed_pipe_never_scores(p, t, dt, w);
        }
    }
}

} // verus!
