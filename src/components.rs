//! The entities of the game: the bird and the pipes.
use vstd::prelude::*;

verus! {

/// The player's bird, by the centre of its bounding circle (subpixels).
#[derive(Clone, Copy, Debug, PartialEq, Eq, Structural)]
pub struct Bird {
    pub x: i64,
    pub y: i64,
}

/// Whether a pipe has already been counted towards the score.
#[derive(Clone, Copy, Debug, PartialEq, Eq, Structural)]
pub struct PipePassed(pub bool);

/// One pipe: the centre of its box and its full height (subpixels); its
/// width is `PIPE_WIDTH`.
#[derive(Clone, Copy, Debug, PartialEq, Eq, Structural)]
pub struct Pipe {
    pub x: i64,
    pub y: i64,
    pub height: i64,
    pub passed: PipePassed,
}

/// Which message the information line shows.
#[derive(Clone, Copy, Debug, PartialEq, Eq, Structural)]
pub enum InfoText {
    /// Before the first flight: how to start, jump and quit.
    StartPrompt,
    /// While the bird flies: nothing.
    Hidden,
    /// After a crash: how to restart or quit.
    DeathNotice,
}

} // verus!
