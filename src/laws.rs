//! What holds across frames: the score within a flight and the crash state.
use vstd::prelude::*;
use crate::gameloop::{flown, next_scene, on_key, on_keys, with_speed, KeyEvent, Scene};
use crate::pipes::hits_any;
use crate::components::Bird;
use crate::kinematics::{moved_height, MAX_SPEED};

verus! {

/// One frame's input, as the laws speak of it.
pub struct FrameModel {
    pub dt: int,
    pub width: int,
    pub height: int,
    pub events: Seq<KeyEvent>,
    pub gap_offset: int,
}

/// The world after the frames, in order.
pub open spec fn run(s: Scene, frames: Seq<FrameModel>) -> Scene
    decreases frames.len(),
{
    if frames.len() == 0 {
        s
    } else {
        let f = frames.last();
        next_scene(run(s, frames.drop_last()), f.dt, f.width, f.height, f.events, f.gap_offset)
    }
}

/// No frame holds a restart key press.
pub open spec fn no_restart(frames: Seq<FrameModel>) -> bool {
    forall|i: int| 0 <= i < frames.len() ==> !(#[trigger] frames[i]).events.contains(KeyEvent::Restart)
}

/// A flight has begun: the bird flies or has crashed.
pub open spec fn in_a_life(s: Scene) -> bool {
    s.state.alive || s.state.game_over
}

/// Keys read in a frame that began in flight change the speed alone.
pub proof fn lemma_keys_in_flight(s: Scene, events: Seq<KeyEvent>)
    ensures
        on_keys(s, events, true) == with_speed(s, on_keys(s, events, true).state.speed_y as int),
    decreases events.len(),
{
    if events.len() > 0 {
        lemma_keys_in_flight(s, events.drop_last());
    }
}

/// After a crash, keys without a restart change nothing.
pub proof fn lemma_keys_after_crash(s: Scene, events: Seq<KeyEvent>)
    requires
        s.state.game_over,
        !s.state.alive,
        !events.contains(KeyEvent::Restart),
    ensures
        on_keys(s, events, false) == s,
    decreases events.len(),
{
    if events.len() > 0 {
        let t = events.drop_last();
        assert(!t.contains(KeyEvent::Restart)) by {
            assert forall|j: int| 0 <= j < t.len() implies t[j] != KeyEvent::Restart by {
                assert(t[j] == events[j]);
            }
        }
        lemma_keys_after_crash(s, t);
        assert(events[events.len() - 1] != KeyEvent::Restart);
    }
}

/// Keys read outside a flight either change nothing or leave a flight just
/// begun, with score 0.
pub proof fn lemma_keys_outside_flight(s: Scene, events: Seq<KeyEvent>)
    requires
        !s.state.alive,
    ensures
        ({
            let r = on_keys(s, events, false);
            r == s || (r.state.alive && !r.state.game_over && r.state.score == 0)
        }),
    decreases events.len(),
{
    if events.len() > 0 {
        lemma_keys_outside_flight(s, events.drop_last());
    }
}

/// Whatever the speed before, a frame in flight ends with a speed of at
/// least `-MAX_SPEED`; a jump read in flight sets the speed to exactly
/// `MAX_SPEED`, and further jumps leave it there.
pub proof fn lemma_speed_bounds(
    s: Scene,
    dt: int,
    w: int,
    h: int,
    events: Seq<KeyEvent>,
    offset: int,
)
    ensures
        s.state.alive ==> next_scene(s, dt, w, h, events, offset).state.speed_y >= -MAX_SPEED,
        on_key(s, KeyEvent::Jump, true).state.speed_y == MAX_SPEED,
        on_key(on_key(s, KeyEvent::Jump, true), KeyEvent::Jump, true).state.speed_y == MAX_SPEED,
{
}

/// The frame in which the bird meets a pipe ends with the bird crashed:
/// not alive and the game over.
pub proof fn lemma_collision_ends_flight(
    s: Scene,
    dt: int,
    w: int,
    h: int,
    events: Seq<KeyEvent>,
    offset: int,
)
    requires
        s.state.alive,
        hits_any(
            s.pipes,
            Bird {
                y: moved_height(
                    s.bird.unwrap().y as int,
                    s.state.speed_y as int,
                    dt,
                    h,
                ) as i64,
                ..s.bird.unwrap()
            },
        ),
    ensures
        !next_scene(s, dt, w, h, events, offset).state.alive,
        next_scene(s, dt, w, h, events, offset).state.game_over,
{
    lemma_keys_in_flight(flown(s, dt, w, h, offset), events);
}

/// In one frame the score falls only when a flight starts, and then to 0.
pub proof fn lemma_score_falls_only_on_start(
    s: Scene,
    dt: int,
    w: int,
    h: int,
    events: Seq<KeyEvent>,
    offset: int,
)
    ensures
        ({
            let r = next_scene(s, dt, w, h, events, offset);
            r.state.score >= s.state.score || (!s.state.alive && r.state.alive
                && r.state.score == 0)
        }),
{
    if s.state.alive {
        lemma_keys_in_flight(flown(s, dt, w, h, offset), events);
    } else {
        lemma_keys_outside_flight(s, events);
    }
}

/// Within a life, over any frames without a restart, the score never falls
/// and the life does not end in the waiting phase.
pub proof fn lemma_score_never_falls(s: Scene, frames: Seq<FrameModel>)
    requires
        in_a_life(s),
        no_restart(frames),
    ensures
        run(s, frames).state.score >= s.state.score,
        in_a_life(run(s, frames)),
    decreases frames.len(),
{
    if frames.len() > 0 {
        let rest = frames.drop_last();
        assert(no_restart(rest)) by {
            assert forall|i: int| 0 <= i < rest.len() implies !(#[trigger] rest[i]).events.contains(
                KeyEvent::Restart,
            ) by {
                assert(rest[i] == frames[i]);
            }
        }
        lemma_score_never_falls(s, rest);
        let p = run(s, rest);
        let f = frames.last();
        assert(!frames[frames.len() - 1].events.contains(KeyEvent::Restart));
        if p.state.alive {
            lemma_keys_in_flight(flown(p, f.dt, f.width, f.height, f.gap_offset), f.events);
        } else {
            lemma_keys_after_crash(p, f.events);
        }
    }
}

/// After a crash the world stays exactly as it is, crashed, over any frames
/// without a restart.
pub proof fn lemma_crash_lasts(s: Scene, frames: Seq<FrameModel>)
    requires
        s.state.game_over,
        !s.state.alive,
        no_restart(frames),
    ensures
        run(s, frames) == s,
    decreases frames.len(),
{
    if frames.len() > 0 {
        let rest = frames.drop_last();
        assert(no_restart(rest)) by {
            assert forall|i: int| 0 <= i < rest.len() implies !(#[trigger] rest[i]).events.contains(
                KeyEvent::Restart,
            ) by {
                assert(rest[i] == frames[i]);
            }
        }
        lemma_crash_lasts(s, rest);
        assert(!frames[frames.len() - 1].events.contains(KeyEvent::Restart));
        lemma_keys_after_crash(s, frames.last().events);
    }
}

} // verus!
