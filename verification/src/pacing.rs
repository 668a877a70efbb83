//! The pace of the game: one frame per fixed slice of time.

use vstd::prelude::*;

verus! {

/// Nanoseconds in a second.
pub const NANOS_PER_SECOND: u64 = 1_000_000_000;

/// Model of a [`GameLoop`].
pub struct GameLoopView {
    pub frame: nat,
    pub current_frame_start: nat,
    pub duration_per_frame: nat,
}

impl GameLoopView {
    /// When the current frame ends.
    pub open spec fn current_frame_end(self) -> nat {
        self.current_frame_start + self.duration_per_frame
    }

    /// How long the current frame still lasts at the time `now`.
    pub open spec fn time_left(self, now: nat) -> nat {
        if now <= self.current_frame_end() {
            (self.current_frame_end() - now) as nat
        } else {
            0
        }
    }
}

/// # Explanation
/// The game loop keeps time for a loop that runs once per frame: it tells
/// how long to wait when the loop is faster than the frame rate allows, and
/// counts the frames.
///
/// Time is in nanoseconds on a clock that the caller reads, and that stood
/// at zero when the game loop was made.
pub struct GameLoop {
    frame: u64,
    current_frame_start: u64,
    duration_per_frame: u64,
}

impl View for GameLoop {
    type V = GameLoopView;

    closed spec fn view(&self) -> GameLoopView {
        GameLoopView {
            frame: self.frame as nat,
            current_frame_start: self.current_frame_start as nat,
            duration_per_frame: self.duration_per_frame as nat,
        }
    }
}

impl GameLoop {
    pub fn new(duration_per_frame: u64) -> (game_loop: GameLoop)
        ensures
            game_loop@ == (GameLoopView {
                frame: 0,
                current_frame_start: 0,
                duration_per_frame: duration_per_frame as nat,
            }),
    {
        let current_frame_start: u64 = 0;
        GameLoop { frame: 0, current_frame_start, duration_per_frame }
    }

    pub fn from_fps(fps: usize) -> (game_loop: GameLoop)
        requires
            fps > 0,
        ensures
            game_loop@ == (GameLoopView {
                frame: 0,
                current_frame_start: 0,
                duration_per_frame: (NANOS_PER_SECOND as nat) / (fps as nat),
            }),
    {
        let duration_per_frame = NANOS_PER_SECOND / (fps as u64);
        Self::new(duration_per_frame)
    }

    /// How long to wait at the time `now` before the next frame may begin.
    pub fn time_left(&self, now: u64) -> (wait: u128)
        ensures
            wait == self@.time_left(now as nat),
    {
        let end_time = self.current_frame_start as u128 + self.duration_per_frame as u128;
        if now as u128 <= end_time {
            end_time - now as u128
        } else {
            0
        }
    }

    /// Begins the next frame at the time `now` and gives its number, counted
    /// from zero.
    pub fn next(&mut self, now: u64) -> (frame_number: Option<u64>)
        requires
            old(self)@.frame < u64::MAX,
        ensures
            frame_number == Some(old(self)@.frame as u64),
            final(self)@ == (GameLoopView {
                frame: old(self)@.frame + 1,
                current_frame_start: now as nat,
                ..old(self)@
            }),
    {
        let frame_number = self.frame;
        self.frame += 1;

        let next_frame_start_time = now;
        self.current_frame_start = next_frame_start_time;

        Some(frame_number)
    }

    /// The number of frames that have begun.
    pub fn frame(&self) -> (frame: u64)
        ensures
            frame == self@.frame,
    {
        self.frame
    }
}

} // verus!
