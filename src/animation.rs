//! Sprite-frame state machines driven by a repeating timer.
use vstd::prelude::*;
use crate::player::PlayerState;
use crate::timer::AnimationTimer;

verus! {

/// Period of the animation timer.
pub const FRAME_PERIOD_US: u64 = 100_000;

/// The frame range of one animation state.
#[derive(Clone, Copy, Debug, PartialEq, Eq, Structural)]
pub struct AnimationIndices {
    pub first: usize,
    pub last: usize,
}

/// The displayed frame of a sprite, its current range and its timer.
#[derive(Clone, Copy, Debug, PartialEq, Eq)]
pub struct Animation {
    pub indices: AnimationIndices,
    pub index: usize,
    pub timer: AnimationTimer,
}

pub open spec fn player_frames(state: PlayerState) -> AnimationIndices {
    match state {
        PlayerState::Idle => AnimationIndices { first: 0, last: 0 },
        PlayerState::Running => AnimationIndices { first: 9, last: 10 },
        PlayerState::Jumping => AnimationIndices { first: 1, last: 1 },
        PlayerState::Falling => AnimationIndices { first: 2, last: 2 },
    }
}

/// Enemies run while grounded and show one frame while airborne.
pub open spec fn enemy_frames(is_grounded: bool) -> AnimationIndices {
    if is_grounded {
        AnimationIndices { first: 9, last: 10 }
    } else {
        AnimationIndices { first: 13, last: 13 }
    }
}

pub fn player_frames_of(state: PlayerState) -> (r: AnimationIndices)
    ensures
        r == player_frames(state),
{
    match state {
        PlayerState::Idle => AnimationIndices { first: 0, last: 0 },
        PlayerState::Running => AnimationIndices { first: 9, last: 10 },
        PlayerState::Jumping => AnimationIndices { first: 1, last: 1 },
        PlayerState::Falling => AnimationIndices { first: 2, last: 2 },
    }
}

pub fn enemy_frames_of(is_grounded: bool) -> (r: AnimationIndices)
    ensures
        r == enemy_frames(is_grounded),
{
    if is_grounded {
        AnimationIndices { first: 9, last: 10 }
    } else {
        AnimationIndices { first: 13, last: 13 }
    }
}

impl Animation {
    pub fn new(indices: AnimationIndices) -> (r: Animation)
        ensures
            r.indices == indices,
            r.index == indices.first,
            r.timer == AnimationTimer::new_spec(FRAME_PERIOD_US),
    {
        Animation { indices, index: indices.first, timer: AnimationTimer::new(FRAME_PERIOD_US) }
    }

    /// The animation after `dt_us` more microseconds with `target` as the
    /// frame range that the current state calls for: a new range starts at
    /// its first frame at once; within the same range the frame advances
    /// when a timer period ends, wrapping from the last back to the first.
    pub open spec fn animated(self, target: AnimationIndices, dt_us: int) -> Animation {
        let timer = self.timer.ticked(dt_us);
        if self.indices != target {
            Animation { indices: target, index: target.first, timer }
        } else if self.timer.finishes(dt_us) {
            Animation {
                indices: self.indices,
                index: if self.index >= self.indices.last {
                    self.indices.first
                } else {
                    (self.index + 1) as usize
                },
                timer,
            }
        } else {
            Animation { indices: self.indices, index: self.index, timer }
        }
    }

    /// Ticks the timer and moves the frame as `animated` says.
    pub fn animate(&mut self, target: AnimationIndices, dt_us: u32)
        ensures
            *final(self) == old(self).animated(target, dt_us as int),
    {
        let just_finished = self.timer.tick(dt_us);
        if self.indices != target {
            self.indices = target;
            self.index = target.first;
        } else if just_finished {
            if self.index >= self.indices.last {
                self.index = self.indices.first;
            } else {
                self.index = self.index + 1;
            }
        }
    }
}

} // verus!
