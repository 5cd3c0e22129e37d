//! One frame of the game: the phases (waiting, in flight, crashed), the
//! physics of a frame in flight and the key presses.
use vstd::prelude::*;
use rand::rngs::StdRng;
use crate::components::{Bird, InfoText, Pipe};
use crate::kinematics::{
    decay_speed, decayed_speed, in_flight_band, moved_height, move_bird_height, COORD_LIMIT,
    MAX_SPEED, SUBPIXELS_PER_QUARTER_PIXEL,
};
use crate::pipes::{
    advance_pipes, advanced_pipes, any_pipe_hits_bird, bottom_pipe, hits_any, max_gap_offset,
    pipes_wf, points_gained, spawn_pipe_pair, top_pipe, GAP,
};
use crate::random::{draw_in_range, seeded_rng};
use crate::resources::{
    fires, fresh_timer, initial_state, saturating_score, started_state, state_wf, ticked, timer_wf,
    GameState, SpawnPipeTimer,
};

verus! {

/// A key press, as the host reads it.
#[derive(Clone, Copy, Debug, PartialEq, Eq, Structural)]
pub enum KeyEvent {
    /// Start a flight, or jump while flying.
    Jump,
    /// After a crash: start over.
    Restart,
    /// Leave the game.
    Quit,
}

/// What the host does after a frame.
#[derive(Clone, Copy, Debug, PartialEq, Eq, Structural)]
pub enum Command {
    Continue,
    /// Exit with a success status.
    Quit,
}

/// What the host supplies each frame: the time step in microseconds, the
/// window's size in pixels and the key presses of the frame, in order.
#[derive(Clone, Debug)]
pub struct FrameInput {
    pub dt_micros: u32,
    pub window_width: u32,
    pub window_height: u32,
    pub events: Vec<KeyEvent>,
}

/// The mathematical view of a world.
pub struct Scene {
    pub state: GameState,
    pub timer: SpawnPipeTimer,
    pub bird: Option<Bird>,
    pub pipes: Seq<Pipe>,
}

/// Everything the game holds between frames.
pub struct World {
    pub state: GameState,
    pub timer: SpawnPipeTimer,
    pub bird: Option<Bird>,
    pub pipes: Vec<Pipe>,
}

impl View for World {
    type V = Scene;

    open spec fn view(&self) -> Scene {
        Scene { state: self.state, timer: self.timer, bird: self.bird, pipes: self.pipes@ }
    }
}

pub open spec fn bird_wf(b: Option<Bird>) -> bool {
    b matches Some(q) ==> -COORD_LIMIT <= q.x <= COORD_LIMIT && -COORD_LIMIT <= q.y <= COORD_LIMIT
}

/// The world's invariant: consistent flags, a bird whenever one flies, a
/// running timer and coordinates within bounds.
pub open spec fn scene_wf(s: Scene) -> bool {
    &&& state_wf(s.state)
    &&& timer_wf(s.timer)
    &&& s.state.alive ==> s.bird.is_some()
    &&& bird_wf(s.bird)
    &&& pipes_wf(s.pipes)
}

/// The world before the first flight: no bird, no pipes.
pub open spec fn initial_scene() -> Scene {
    Scene { state: initial_state(), timer: fresh_timer(), bird: None, pipes: Seq::empty() }
}

/// The world as a flight starts: score 0, the bird at the origin, no pipes.
pub open spec fn started_scene() -> Scene {
    Scene {
        state: started_state(),
        timer: fresh_timer(),
        bird: Some(Bird { x: 0, y: 0 }),
        pipes: Seq::empty(),
    }
}

pub open spec fn with_speed(s: Scene, speed: int) -> Scene {
    Scene { state: GameState { speed_y: speed as i64, ..s.state }, ..s }
}

/// One key press, in a frame that began in flight (`in_flight`) or not.
/// In flight a jump sets the speed to `MAX_SPEED` and nothing else is read;
/// otherwise a jump starts a flight from the waiting phase, and a restart
/// starts one anew after a crash.
pub open spec fn on_key(s: Scene, e: KeyEvent, in_flight: bool) -> Scene {
    match e {
        KeyEvent::Jump => if in_flight || s.state.alive {
            with_speed(s, MAX_SPEED as int)
        } else if !s.state.game_over {
            started_scene()
        } else {
            s
        },
        KeyEvent::Restart => if !in_flight && s.state.game_over {
            started_scene()
        } else {
            s
        },
        KeyEvent::Quit => s,
    }
}

/// The key presses of a frame, read in order.
pub open spec fn on_keys(s: Scene, events: Seq<KeyEvent>, in_flight: bool) -> Scene
    decreases events.len(),
{
    if events.len() == 0 {
        s
    } else {
        on_key(on_keys(s, events.drop_last(), in_flight), events.last(), in_flight)
    }
}

/// The physics of a frame in flight: the bird moves, every pipe is tested
/// against the bird's new place, the pipes scroll, leave or score, and the
/// spawn timer may add a pair placed by `offset`.
pub open spec fn flown(s: Scene, dt: int, w: int, h: int, offset: int) -> Scene {
    let b = s.bird.unwrap();
    let bird = Bird { y: moved_height(b.y as int, s.state.speed_y as int, dt, h) as i64, ..b };
    let hit = hits_any(s.pipes, bird);
    let kept = advanced_pipes(s.pipes, dt, w);
    Scene {
        state: GameState {
            score: saturating_score(s.state.score as int, points_gained(s.pipes, dt, w) as int) as u64,
            alive: s.state.alive && !hit,
            game_over: s.state.game_over || hit,
            ..s.state
        },
        timer: ticked(s.timer, dt),
        bird: Some(bird),
        pipes: if fires(s.timer, dt) {
            kept.push(top_pipe(w, h, offset)).push(bottom_pipe(w, h, offset))
        } else {
            kept
        },
    }
}

/// The world after one frame. In flight: physics, then the keys, then the
/// speed decays. Otherwise only the keys are read.
pub open spec fn next_scene(
    s: Scene,
    dt: int,
    w: int,
    h: int,
    events: Seq<KeyEvent>,
    offset: int,
) -> Scene {
    if s.state.alive {
        let after = on_keys(flown(s, dt, w, h, offset), events, true);
        with_speed(after, decayed_speed(after.state.speed_y as int))
    } else {
        on_keys(s, events, false)
    }
}

/// A frame asks the host to quit when any of its key presses is `Quit`.
pub open spec fn frame_command(events: Seq<KeyEvent>) -> Command {
    if events.contains(KeyEvent::Quit) {
        Command::Quit
    } else {
        Command::Continue
    }
}

/// The message to show in each phase.
pub open spec fn info_of(s: GameState) -> InfoText {
    if s.alive {
        InfoText::Hidden
    } else if s.game_over {
        InfoText::DeathNotice
    } else {
        InfoText::StartPrompt
    }
}

impl World {
    pub open spec fn wf(&self) -> bool {
        scene_wf(self@)
    }

    /// The world before the first flight.
    pub fn new() -> (r: World)
        ensures
            r@ == initial_scene(),
            r.wf(),
    {
        World { state: GameState::new(), timer: SpawnPipeTimer::new(), bird: None, pipes: Vec::new() }
    }

    fn started() -> (r: World)
        ensures
            r@ == started_scene(),
            r.wf(),
    {
        let r = World {
            state: GameState { score: 0, alive: true, speed_y: 0, game_over: false },
            timer: SpawnPipeTimer::new(),
            bird: Some(Bird { x: 0, y: 0 }),
            pipes: Vec::new(),
        };
        assert(r@.pipes == Seq::<Pipe>::empty());
        r
    }

    /// The message that the information line shows now.
    pub fn info_text(&self) -> (r: InfoText)
        ensures
            r == info_of(self.state),
    {
        if self.state.alive {
            InfoText::Hidden
        } else if self.state.game_over {
            InfoText::DeathNotice
        } else {
            InfoText::StartPrompt
        }
    }

    fn fly(&mut self, dt: u32, w: u32, h: u32, offset: i64)
        requires
            old(self).wf(),
            old(self).state.alive,
            -max_gap_offset(h as int) <= offset <= max_gap_offset(h as int),
        ensures
            final(self).wf(),
            final(self)@ == flown(old(self)@, dt as int, w as int, h as int, offset as int),
    {
        let b = self.bird.unwrap();
        let y = move_bird_height(b.y, self.state.speed_y, dt, h);
        proof {
            if in_flight_band(b.y + self.state.speed_y * dt, h as int) {
                assert(-COORD_LIMIT <= y <= COORD_LIMIT);
            }
        }
        let bird = Bird { y, ..b };
        let hit = any_pipe_hits_bird(&self.pipes, &bird);
        let (mut kept, gained) = advance_pipes(&self.pipes, dt, w);
        self.state.score = self.state.score.saturating_add(gained);
        if hit {
            self.state.alive = false;
            self.state.game_over = true;
        }
        let fired = self.timer.tick(dt);
        if fired {
            let (top, bottom) = spawn_pipe_pair(w, h, offset);
            kept.push(top);
            kept.push(bottom);
            assert(pipes_wf(kept@));
        }
        self.pipes = kept;
        self.bird = Some(bird);
    }

    fn handle_key(&mut self, e: KeyEvent, in_flight: bool)
        requires
            old(self).wf(),
        ensures
            final(self).wf(),
            final(self)@ == on_key(old(self)@, e, in_flight),
    {
        match e {
            KeyEvent::Jump => {
                if in_flight || self.state.alive {
                    self.state.jump();
                } else if !self.state.game_over {
                    *self = World::started();
                }
            },
            KeyEvent::Restart => {
                if !in_flight && self.state.game_over {
                    *self = World::started();
                }
            },
            KeyEvent::Quit => {},
        }
    }

    /// Runs one frame. `gap_offset` places the pipe pair that the frame may
    /// spawn; it must lie within the offset range of the window's height.
    /// Returns `Command::Quit` when a key press asked to leave.
    pub fn update(&mut self, input: &FrameInput, gap_offset: i64) -> (r: Command)
        requires
            old(self).wf(),
            -max_gap_offset(input.window_height as int) <= gap_offset <= max_gap_offset(
                input.window_height as int,
            ),
        ensures
            final(self).wf(),
            final(self)@ == next_scene(
                old(self)@,
                input.dt_micros as int,
                input.window_width as int,
                input.window_height as int,
                input.events@,
                gap_offset as int,
            ),
            r == frame_command(input.events@),
    {
        let in_flight = self.state.alive;
        if in_flight {
            self.fly(input.dt_micros, input.window_width, input.window_height, gap_offset);
        }
        let ghost before_keys = self@;
        let mut quit = false;
        let mut i: usize = 0;
        while i < input.events.len()
            invariant
                i <= input.events@.len(),
                self.wf(),
                self@ == on_keys(before_keys, input.events@.take(i as int), in_flight),
                quit == input.events@.take(i as int).contains(KeyEvent::Quit),
            decreases input.events@.len() - i,
        {
            let e = input.events[i];
            let ghost prefix = input.events@.take(i as int + 1);
            assert(prefix.drop_last() == input.events@.take(i as int));
            assert(prefix.last() == e);
            match e {
                KeyEvent::Quit => {
                    quit = true;
                    assert(prefix[i as int] == KeyEvent::Quit);
                },
                _ => {
                    self.handle_key(e, in_flight);
                    proof {
                        if quit {
                            let j = choose|j: int|
                                0 <= j < i && input.events@.take(i as int)[j] == KeyEvent::Quit;
                            assert(prefix[j] == KeyEvent::Quit);
                        } else {
                            assert forall|j: int| 0 <= j < prefix.len() implies prefix[j]
                                != KeyEvent::Quit by {
                                if j < i {
                                    assert(prefix[j] == input.events@.take(i as int)[j]);
                                }
                            }
                        }
                    }
                },
            }
            i += 1;
        }
        assert(input.events@.take(input.events@.len() as int) == input.events@);
        if in_flight {
            self.state.speed_y = decay_speed(self.state.speed_y);
        }
        if quit {
            Command::Quit
        } else {
            Command::Continue
        }
    }
}

/// A world together with the random source that places its pipe pairs.
pub struct Game {
    pub world: World,
    pub rng: StdRng,
}

impl Game {
    /// A game before its first flight, whose pipe placement follows `seed`.
    pub fn new(seed: u64) -> (r: Game)
        ensures
            r.world@ == initial_scene(),
            r.world.wf(),
    {
        Game { world: World::new(), rng: seeded_rng(seed) }
    }

    /// Runs one frame, drawing the offset of a spawned pipe pair from the
    /// game's random source, uniformly within the window's offset range.
    pub fn step(&mut self, input: &FrameInput) -> (r: Command)
        requires
            old(self).world.wf(),
        ensures
            final(self).world.wf(),
            exists|o: int|
                -max_gap_offset(input.window_height as int) <= o <= max_gap_offset(
                    input.window_height as int,
                ) && final(self).world@ == #[trigger] next_scene(
                    old(self).world@,
                    input.dt_micros as int,
                    input.window_width as int,
                    input.window_height as int,
                    input.events@,
                    o,
                ),
            !(old(self).world.state.alive && fires(old(self).world.timer, input.dt_micros as int))
                ==> final(self).world@ == next_scene(
                old(self).world@,
                input.dt_micros as int,
                input.window_width as int,
                input.window_height as int,
                input.events@,
                0,
            ),
            r == frame_command(input.events@),
    {
        let quarter = input.window_height as i64 * SUBPIXELS_PER_QUARTER_PIXEL;
        let max_offset = if quarter >= GAP {
            quarter - GAP
        } else {
            0
        };
        let offset = if self.world.state.alive && self.world.timer.fires_after(input.dt_micros) {
            draw_in_range(&mut self.rng, -max_offset, max_offset)
        } else {
            0
        };
        self.world.update(input, offset)
    }
}

} // verus!
