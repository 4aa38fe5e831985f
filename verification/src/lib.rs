//! Real-time audio playback and visualization-sampling pipeline.
//!
//! The pipeline streams decoded audio samples toward an output device while
//! keeping a bounded history of the most recent samples for visual rendering.
//! Samples are interleaved stereo values held in fixed point: the integer `v`
//! stands for the amplitude `v / SAMPLE_SCALE`, so the nominal range
//! `[-1.0, 1.0]` is `[-SAMPLE_SCALE, SAMPLE_SCALE]`.

use vstd::prelude::*;

pub mod engine;
pub mod geom;
pub mod render;
pub mod ring;
pub mod source;
pub mod spectrum;

verus! {

/// One amplitude unit: the fixed-point value standing for 1.0.
pub const SAMPLE_SCALE: i32 = 32768;

/// A sample is valid when its amplitude is at most 1.0 in either direction.
pub open spec fn valid_sample(s: i32) -> bool {
    -SAMPLE_SCALE <= s <= SAMPLE_SCALE
}

} // verus!
