//! Willo's animation states and the sprite-sheet frames of each.
use vstd::prelude::*;

use crate::grid::Direction;
use crate::history::HistoryCommands;
use crate::timer::Timer;

verus! {

/// The animation Willo is playing.
#[derive(Clone, Copy, Debug, PartialEq, Eq, Hash, Structural)]
pub enum WilloAnimationState {
    Idle(Direction),
    Push(Direction),
    Dying,
    /// Nothing is shown.
    Gone,
}

impl Default for WilloAnimationState {
    fn default() -> (r: WilloAnimationState)
        ensures
            r == WilloAnimationState::Idle(Direction::Down),
    {
        WilloAnimationState::Idle(Direction::Down)
    }
}

/// The animation that follows `s` once it has played: a push settles into idling the same
/// way, dying ends in nothing, and every other animation returns to idling downwards.
pub open spec fn following_animation(s: WilloAnimationState) -> WilloAnimationState {
    match s {
        WilloAnimationState::Dying | WilloAnimationState::Gone => WilloAnimationState::Gone,
        WilloAnimationState::Push(d) => WilloAnimationState::Idle(d),
        _ => WilloAnimationState::Idle(Direction::Down),
    }
}

impl WilloAnimationState {
    /// The animation that follows this one; there always is one.
    pub fn next(&mut self) -> (r: Option<WilloAnimationState>)
        ensures
            *final(self) == *old(self),
            r == Some(following_animation(*old(self))),
    {
        Some(
            match *self {
                WilloAnimationState::Dying | WilloAnimationState::Gone => WilloAnimationState::Gone,
                WilloAnimationState::Push(d) => WilloAnimationState::Idle(d),
                _ => WilloAnimationState::Idle(Direction::Down),
            },
        )
    }
}

/// A run of sprite-sheet frames played at a fixed pace, once or in a loop.
#[derive(Debug)]
pub struct SpriteSheetAnimation {
    pub indices: std::ops::Range<usize>,
    pub frame_timer: Timer,
    pub repeat: bool,
}

/// Milliseconds each frame of Willo's animations is shown.
pub const FRAME_MILLIS: u64 = 150;

/// The first frame and the end (exclusive) of the frames of animation `s`.
pub open spec fn animation_frames(s: WilloAnimationState) -> (usize, usize) {
    match s {
        WilloAnimationState::Push(Direction::Up) => (1, 2),
        WilloAnimationState::Push(Direction::Down) => (11, 12),
        WilloAnimationState::Push(Direction::Left) => (21, 22),
        WilloAnimationState::Push(Direction::Right) => (31, 32),
        WilloAnimationState::Idle(Direction::Up) => (40, 47),
        WilloAnimationState::Idle(Direction::Down) => (50, 57),
        WilloAnimationState::Idle(Direction::Left) => (60, 67),
        WilloAnimationState::Idle(Direction::Right) => (70, 77),
        WilloAnimationState::Dying => (80, 105),
        WilloAnimationState::Gone => (3, 4),
    }
}

impl SpriteSheetAnimation {
    /// The frames of animation `state`, each shown for `FRAME_MILLIS`; only idling
    /// downwards loops.
    pub fn from_state(state: WilloAnimationState) -> (r: SpriteSheetAnimation)
        ensures
            r.indices.start == animation_frames(state).0,
            r.indices.end == animation_frames(state).1,
            r.frame_timer == Timer::new_spec(FRAME_MILLIS, true),
            r.repeat == (state == WilloAnimationState::Idle(Direction::Down)),
    {
        let (start, end): (usize, usize) = match state {
            WilloAnimationState::Push(Direction::Up) => (1, 2),
            WilloAnimationState::Push(Direction::Down) => (11, 12),
            WilloAnimationState::Push(Direction::Left) => (21, 22),
            WilloAnimationState::Push(Direction::Right) => (31, 32),
            WilloAnimationState::Idle(Direction::Up) => (40, 47),
            WilloAnimationState::Idle(Direction::Down) => (50, 57),
            WilloAnimationState::Idle(Direction::Left) => (60, 67),
            WilloAnimationState::Idle(Direction::Right) => (70, 77),
            WilloAnimationState::Dying => (80, 105),
            WilloAnimationState::Gone => (3, 4),
        };
        let repeat = state == WilloAnimationState::Idle(Direction::Down);
        SpriteSheetAnimation { indices: start..end, frame_timer: Timer::new(FRAME_MILLIS, true), repeat }
    }
}

/// Sets Willo idling downwards after a rewind or a reset among `commands`; returns whether
/// one was there, so that the undo sound plays.
pub fn history_sugar(commands: &Vec<HistoryCommands>, animation: &mut WilloAnimationState) -> (undone: bool)
    ensures
        undone == exists|i: int| 0 <= i < commands@.len() && #[trigger] commands@[i] != HistoryCommands::Record,
        *final(animation) == (if undone { WilloAnimationState::Idle(Direction::Down) } else { *old(animation) }),
{
    let mut undone = false;
    let mut i: usize = 0;
    while i < commands.len()
        invariant
            i <= commands@.len(),
            undone == exists|k: int| 0 <= k < i && #[trigger] commands@[k] != HistoryCommands::Record,
            *animation == (if undone { WilloAnimationState::Idle(Direction::Down) } else { *old(animation) }),
        decreases commands@.len() - i,
    {
        match commands[i] {
            HistoryCommands::Rewind | HistoryCommands::Reset => {
                *animation = WilloAnimationState::Idle(Direction::Down);
                undone = true;
            },
            _ => {},
        }
        i = i + 1;
    }
    undone
}

/// Starts the dying animation when Willo has died.
pub fn play_death_animations(died: bool, animation: &mut WilloAnimationState)
    ensures
        *final(animation) == (if died { WilloAnimationState::Dying } else { *old(animation) }),
{
    if died {
        *animation = WilloAnimationState::Dying;
    }
}

} // verus!
