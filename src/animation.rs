use crate::movement::{Directions, Movement};
use bevy::time::{Timer, TimerMode};
use std::time::Duration;
use vstd::prelude::*;

verus! {

/// What a character is doing.
#[derive(Clone, Copy, PartialEq, Eq, Structural, Debug)]
#[allow(non_camel_case_types)]
pub enum Actions {
    WALKING,
    IDLE,
}

/// The action an animation shows.
#[derive(Clone, Copy, PartialEq, Eq, Structural, Debug)]
pub struct Action(pub Actions);

/// Facing and action shown by an animation.
#[derive(Clone, Copy, PartialEq, Eq, Structural, Debug)]
pub struct AnimationState {
    pub action: Action,
    pub direction: Directions,
}

/// The half-open range `[first, last)` of atlas indices that the animation
/// currently cycles through.
#[derive(Clone, Copy, PartialEq, Eq, Structural, Debug)]
pub struct AnimationSlice {
    pub first: usize,
    pub last: usize,
}

/// The range of atlas indices that the sprite sheet provides.
#[derive(Clone, Copy, PartialEq, Eq, Structural, Debug)]
pub struct AnimationIndices {
    pub first: usize,
    pub last: usize,
}

/// A repeating timer: `period` and `elapsed` in nanoseconds.
#[derive(Clone, Copy, PartialEq, Eq, Structural, Debug)]
pub struct AnimationTimer {
    pub period: u64,
    pub elapsed: u64,
}

/// Animation of one sprite.
#[derive(Clone, Copy, PartialEq, Eq, Structural, Debug)]
pub struct Animation {
    pub state: AnimationState,
    pub timer: AnimationTimer,
    pub slice: AnimationSlice,
    pub indices: AnimationIndices,
    pub frames: usize,
}

/// Nanoseconds between two frames of an animation: 0.2 s.
pub const FRAME_PERIOD: u64 = 200_000_000;

/// The slice of atlas indices for each facing.
pub open spec fn slice_spec(direction: Directions) -> (usize, usize) {
    match direction {
        Directions::DOWN => (0, 3),
        Directions::UP => (4, 7),
        Directions::LEFT => (8, 11),
        Directions::RIGHT => (12, 15),
    }
}

/// Walking when the velocity has a nonzero component, else idle.
pub open spec fn action_spec(x: int, y: int) -> Actions {
    if x != 0 || y != 0 {
        Actions::WALKING
    } else {
        Actions::IDLE
    }
}

/// Elapsed time of a repeating timer after it is advanced by `delta`.
pub open spec fn ticked_elapsed(period: int, elapsed: int, delta: int) -> int {
    (elapsed + delta) % period
}

/// Whether a repeating timer reports completion after it is advanced by
/// `delta`: the number of periods that passed, as a 32-bit count, is nonzero.
pub open spec fn ticked_finished(period: int, elapsed: int, delta: int) -> bool {
    ((elapsed + delta) / period) % 0x1_0000_0000 != 0
}

impl AnimationTimer {
    pub open spec fn wf(self) -> bool {
        self.period > 0
    }

    /// A repeating timer of `period` nanoseconds with nothing elapsed.
    pub fn repeating(period: u64) -> (r: AnimationTimer)
        requires
            period > 0,
        ensures
            r.wf(),
            r.period == period,
            r.elapsed == 0,
    {
        AnimationTimer { period, elapsed: 0 }
    }
}

/// Relies on bevy's `Timer::tick` for a repeating timer of `period`
/// nanoseconds (built by `Timer::new`, with `elapsed` nanoseconds put on it by
/// `Timer::set_elapsed`): the elapsed time left afterwards is the remainder of
/// `elapsed + delta` by the period, and `Timer::just_finished` holds when the
/// quotient, truncated to `u32`, is nonzero. Returns the new elapsed time and
/// `just_finished`.
#[verifier::external_body]
fn repeating_tick(period: u64, elapsed: u64, delta: u64) -> (r: (u64, bool))
    requires
        period > 0,
    ensures
        r.0 == ticked_elapsed(period as int, elapsed as int, delta as int),
        r.1 == ticked_finished(period as int, elapsed as int, delta as int),
{
    let mut timer = Timer::new(Duration::from_nanos(period), TimerMode::Repeating);
    timer.set_elapsed(Duration::from_nanos(elapsed));
    timer.tick(Duration::from_nanos(delta));
    (timer.elapsed().as_nanos() as u64, timer.just_finished())
}

impl AnimationTimer {
    /// Advances the timer by `delta` nanoseconds and reports whether it
    /// completed a period.
    pub fn tick(&mut self, delta: u64) -> (finished: bool)
        requires
            old(self).wf(),
        ensures
            final(self).wf(),
            final(self).period == old(self).period,
            final(self).elapsed == ticked_elapsed(
                old(self).period as int,
                old(self).elapsed as int,
                delta as int,
            ),
            finished == ticked_finished(
                old(self).period as int,
                old(self).elapsed as int,
                delta as int,
            ),
    {
        let (elapsed, finished) = repeating_tick(self.period, self.elapsed, delta);
        self.elapsed = elapsed;
        finished
    }
}

/// The slice of atlas indices for `direction`: a fixed table, the same
/// whatever came before.
pub fn slice_for(direction: Directions) -> (r: AnimationSlice)
    ensures
        (r.first, r.last) == slice_spec(direction),
{
    match direction {
        Directions::DOWN => AnimationSlice { first: 0, last: 3 },
        Directions::UP => AnimationSlice { first: 4, last: 7 },
        Directions::LEFT => AnimationSlice { first: 8, last: 11 },
        Directions::RIGHT => AnimationSlice { first: 12, last: 15 },
    }
}

impl Animation {
    pub open spec fn wf(self) -> bool {
        self.timer.wf()
    }

    /// The animation a character starts with: idle, facing down, on the
    /// down slice, with a 0.2 s repeating timer over a sheet of indices 1 to
    /// 15 and four frames per cycle.
    pub fn new() -> (r: Animation)
        ensures
            r.wf(),
            r.state == (AnimationState { action: Action(Actions::IDLE), direction: Directions::DOWN }),
            r.timer.period == FRAME_PERIOD,
            r.timer.elapsed == 0,
            r.slice == (AnimationSlice { first: 0, last: 3 }),
            r.indices == (AnimationIndices { first: 1, last: 15 }),
            r.frames == 4,
    {
        Animation {
            state: AnimationState { action: Action(Actions::IDLE), direction: Directions::DOWN },
            timer: AnimationTimer::repeating(FRAME_PERIOD),
            slice: AnimationSlice { first: 0, last: 3 },
            indices: AnimationIndices { first: 1, last: 15 },
            frames: 4,
        }
    }
}

/// Maps the movement onto the animation: copies the facing, derives the
/// action from the velocity, and selects the facing's slice. Timer, sheet
/// indices and frame count stay as they were.
pub fn set_player_animation(animation: &mut Animation, movement: &Movement)
    ensures
        final(animation).state.direction == movement.direction,
        final(animation).state.action.0 == action_spec(movement.x as int, movement.y as int),
        (final(animation).slice.first, final(animation).slice.last) == slice_spec(
            movement.direction,
        ),
        final(animation).timer == old(animation).timer,
        final(animation).indices == old(animation).indices,
        final(animation).frames == old(animation).frames,
{
    animation.state.direction = movement.direction;
    if movement.x != 0 || movement.y != 0 {
        animation.state.action = Action(Actions::WALKING);
    } else {
        animation.state.action = Action(Actions::IDLE);
    }
    animation.slice = slice_for(movement.direction);
}

/// Whether `index` lies in the slice `[first, last)`.
pub open spec fn in_slice(slice: AnimationSlice, index: int) -> bool {
    slice.first <= index < slice.last
}

/// Advances the atlas index by one frame of `delta` nanoseconds. An index
/// outside the slice is snapped to the slice's first index, and the timer
/// does not run that frame. Otherwise the timer runs, and the index moves one
/// step when it completes a period; it may thereby reach the slice's end,
/// which the next frame snaps back.
pub fn animation_system(animation: &mut Animation, index: &mut usize, delta: u64)
    requires
        old(animation).wf(),
    ensures
        final(animation).wf(),
        final(animation).state == old(animation).state,
        final(animation).slice == old(animation).slice,
        final(animation).indices == old(animation).indices,
        final(animation).frames == old(animation).frames,
        final(animation).timer.period == old(animation).timer.period,
        !in_slice(old(animation).slice, *old(index) as int) ==> {
            &&& *final(index) == old(animation).slice.first
            &&& final(animation).timer == old(animation).timer
        },
        in_slice(old(animation).slice, *old(index) as int) ==> {
            &&& final(animation).timer.elapsed == ticked_elapsed(
                old(animation).timer.period as int,
                old(animation).timer.elapsed as int,
                delta as int,
            )
            &&& *final(index) == *old(index) + if ticked_finished(
                old(animation).timer.period as int,
                old(animation).timer.elapsed as int,
                delta as int,
            ) {
                1int
            } else {
                0int
            }
        },
{
    if !(animation.slice.first <= *index && *index < animation.slice.last) {
        *index = animation.slice.first;
    } else {
        let finished = animation.timer.tick(delta);
        if finished {
            *index = *index + 1;
        }
    }
}

} // verus!
