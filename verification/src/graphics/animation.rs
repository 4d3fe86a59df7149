//! Key-frame animations: a fixed frame duration, an ordered list of texture
//! regions and a playback policy that maps elapsed time to the active frame.
//!
//! Time is measured in integer ticks of the caller's choice (for example
//! milliseconds); a frame lasts `frame_duration` ticks.

use vstd::prelude::*;

use crate::graphics::texture::TextureRegion;

verus! {

/// How elapsed time maps to a frame once the first pass over the frames is
/// finished.
#[derive(Clone, Copy, PartialEq, Eq, Structural, Debug)]
pub enum PlayMode {
    Normal,
    Reversed,
    Loop,
    LoopReversed,
    LoopPingPong,
}

/// The frame shown by an animation of `n` frames after `frame_number` whole
/// frame durations have elapsed. An animation of a single frame always shows
/// that frame, whatever the policy or the time.
pub open spec fn frame_index(mode: PlayMode, frame_number: int, n: int) -> int
    recommends
        n >= 1,
        frame_number >= 0,
{
    if n == 1 {
        0
    } else {
        match mode {
            PlayMode::Normal => if frame_number < n - 1 {
                frame_number
            } else {
                n - 1
            },
            PlayMode::Reversed => n - 1 - (if frame_number < n - 1 {
                frame_number
            } else {
                n - 1
            }),
            PlayMode::Loop => frame_number % n,
            PlayMode::LoopReversed => n - 1 - frame_number % n,
            PlayMode::LoopPingPong => {
                let c = frame_number % (2 * n - 2);
                if c < n {
                    c
                } else {
                    2 * n - 2 - c
                }
            },
        }
    }
}

/// A key-frame animation. `animation_duration` is derived once at
/// construction as `frame_duration` times the frame count.
pub struct Animation {
    pub frame_duration: u64,
    pub animation_duration: u64,
    pub key_frames: Vec<TextureRegion>,
    pub play_mode: PlayMode,
}

impl Animation {
    /// Well-formedness: the frame duration is positive and the cached total
    /// duration is the product of the frame duration and the frame count.
    pub open spec fn wf(&self) -> bool {
        &&& self.frame_duration > 0
        &&& self.animation_duration == self.frame_duration * self.key_frames@.len()
    }

    /// Builds an animation in the `Normal` policy. A frame duration of zero
    /// ticks is rejected, never silently adjusted.
    pub fn new(frame_duration: u64, key_frames: Vec<TextureRegion>) -> (r: Option<Self>)
        requires
            frame_duration * key_frames@.len() <= u64::MAX,
        ensures
            r is Some <==> frame_duration > 0,
            r matches Some(a) ==> a == (Animation {
                frame_duration,
                animation_duration: (frame_duration * key_frames@.len()) as u64,
                key_frames,
                play_mode: PlayMode::Normal,
            }),
            r matches Some(a) ==> a.wf(),
    {
        if frame_duration == 0 {
            return None;
        }

        let n = key_frames.len();
        Some(Animation {
            frame_duration,
            animation_duration: frame_duration * (n as u64),
            key_frames,
            play_mode: PlayMode::Normal,
        })
    }

    /// The active frame after `run_time` ticks: the elapsed time is turned
    /// into a whole number of frame durations and the playback policy maps
    /// that to a frame index. The index derived from time is clamped before
    /// any subtraction, so reversed playback of an over-long run time stays
    /// on the final frame of its pass instead of wrapping around.
    pub fn current_key_frame(&self, run_time: u64) -> (r: &TextureRegion)
        requires
            self.wf(),
            self.key_frames@.len() >= 1,
            2 * self.key_frames@.len() <= u64::MAX,
        ensures
            *r == self.key_frames@[frame_index(
                self.play_mode,
                run_time as int / self.frame_duration as int,
                self.key_frames@.len() as int,
            )],
    {
        let num_frames: u64 = self.key_frames.len() as u64;
        if num_frames == 1 {
            return &self.key_frames[0];
        }

        let frame_number: u64 = run_time / self.frame_duration;
        let frame_number: u64 = match self.play_mode {
            PlayMode::Normal => if frame_number < num_frames - 1 {
                frame_number
            } else {
                num_frames - 1
            },
            PlayMode::Reversed => {
                let clamped = if frame_number < num_frames - 1 {
                    frame_number
                } else {
                    num_frames - 1
                };
                num_frames - 1 - clamped
            },
            PlayMode::Loop => frame_number % num_frames,
            PlayMode::LoopReversed => num_frames - 1 - frame_number % num_frames,
            PlayMode::LoopPingPong => {
                let cycle = 2 * num_frames - 2;
                let c = frame_number % cycle;
                if c < num_frames {
                    c
                } else {
                    cycle - c
                }
            },
        };

        &self.key_frames[frame_number as usize]
    }

    pub fn key_frames(&self) -> (r: &[TextureRegion])
        ensures
            r@ == self.key_frames@,
    {
        self.key_frames.as_slice()
    }

    pub fn animation_duration(&self) -> (r: u64)
        ensures
            r == self.animation_duration,
    {
        self.animation_duration
    }
}

} // verus!
