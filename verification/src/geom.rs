//! Drawable primitives, the target rectangle, and the visualizer
//! configuration.
//!
//! Coordinates are whole pixels. Every renderer scales a bounded numerator
//! against a fixed denominator, so the one lemma here — a scaled quotient
//! never leaves `[0, h]` — carries all coordinate range proofs.

use vstd::prelude::*;
use vstd::arithmetic::div_mod::{
    lemma_div_is_ordered,
    lemma_div_multiples_vanish,
    lemma_div_pos_is_pos,
};
use vstd::arithmetic::mul::{lemma_mul_inequality, lemma_mul_nonnegative};
use crate::ring::RING_CAPACITY;

verus! {

/// A pixel position.
#[derive(Clone, Copy, PartialEq, Eq, Structural, Debug)]
pub struct Point {
    pub x: i64,
    pub y: i64,
}

/// The rectangle a frame is rendered into.
#[derive(Clone, Copy, PartialEq, Eq, Structural, Debug)]
pub struct Rect {
    pub left: i32,
    pub top: i32,
    pub width: i32,
    pub height: i32,
}

impl Rect {
    pub open spec fn wf(&self) -> bool {
        &&& self.width >= 0
        &&& self.height >= 0
    }

    /// The vertical pixel midline of the rectangle.
    pub open spec fn center_y(&self) -> int {
        self.top + self.height / 2
    }

    pub open spec fn bottom(&self) -> int {
        self.top + self.height
    }
}

/// One drawable primitive: a line segment, a filled dot, or a vertical bar.
#[derive(Clone, Copy, PartialEq, Eq, Structural, Debug)]
pub enum Primitive {
    Segment { a: Point, b: Point },
    Dot { at: Point },
    Bar { x: i64, y_bottom: i64, y_top: i64 },
}

/// The visualization style the UI selected.
#[derive(Clone, Copy, PartialEq, Eq, Structural, Debug)]
pub enum Style {
    Waveform,
    Lissajous,
    StereoSpread,
    Spectrum,
}

/// Frame-to-frame rendering parameters, mutated only by the UI.
#[derive(Clone, Copy, PartialEq, Eq, Structural, Debug)]
pub struct VisualizerConfig {
    pub style: Style,
    /// How many of the newest snapshot samples to draw; clamped to the ring
    /// capacity.
    pub buffer_size: usize,
    /// Lissajous only: connect successive points with lines.
    pub connect_lines: bool,
    /// Informational playback-speed multiplier, in thousandths.
    pub playback_speed_permille: u32,
}

impl VisualizerConfig {
    /// The sample budget actually used: an oversized request falls back to
    /// the default of 512.
    pub open spec fn spec_effective_buffer_size(&self) -> int {
        if self.buffer_size > RING_CAPACITY {
            512
        } else {
            self.buffer_size as int
        }
    }

    /// Default parameters: waveform style over 512 samples, no connecting
    /// lines, unit playback speed.
    pub fn new() -> (r: VisualizerConfig)
        ensures
            r.style == Style::Waveform,
            r.buffer_size == 512,
            !r.connect_lines,
            r.playback_speed_permille == 1000,
    {
        VisualizerConfig {
            style: Style::Waveform,
            buffer_size: 512,
            connect_lines: false,
            playback_speed_permille: 1000,
        }
    }

    /// See `spec_effective_buffer_size`.
    pub fn effective_buffer_size(&self) -> (r: usize)
        ensures
            r == self.spec_effective_buffer_size(),
            r <= RING_CAPACITY,
    {
        if self.buffer_size > RING_CAPACITY {
            512
        } else {
            self.buffer_size
        }
    }
}

/// A quotient `num * h / den` with `0 <= num <= den` stays within `[0, h]`,
/// and hits `h` exactly when `num == den`.
pub proof fn lemma_scaled_div_bound(num: int, den: int, h: int)
    requires
        0 <= num <= den,
        0 < den,
        0 <= h,
    ensures
        0 <= num * h / den <= h,
        num == den ==> num * h / den == h,
{
    lemma_mul_nonnegative(num, h);
    lemma_div_pos_is_pos(num * h, den);
    lemma_mul_inequality(num, den, h);
    lemma_div_is_ordered(num * h, den * h, den);
    lemma_div_multiples_vanish(h, den);
}

} // verus!
