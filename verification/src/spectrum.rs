//! The spectrum visualization: a fixed FFT window, then bars.
//!
//! The forward real FFT runs on floating-point numbers, which this library
//! does not hold, so the transform itself stays with the caller; what is
//! verified here is everything around it: the single validated window — full
//! ring capacity, nothing less — and, for every possible magnitude vector,
//! the grouping of bins into bars, averaging, scaling and clamping to the
//! rectangle.

use vstd::prelude::*;
use vstd::arithmetic::mul::lemma_mul_inequality;
use crate::geom::{lemma_scaled_div_bound, Primitive, Rect};
use crate::ring::RING_CAPACITY;

verus! {

/// Complex bins a forward real FFT yields over `RING_CAPACITY` samples:
/// `RING_CAPACITY / 2 + 1`.
pub const FFT_BINS: usize = 1025;

/// Bars drawn per spectrum frame.
pub const SPECTRUM_BARS: usize = 64;

/// Consecutive FFT bins averaged into one bar.
pub const SPECTRUM_GROUP: usize = 16;

/// The average fixed-point magnitude at which a bar saturates at full
/// rectangle height (64 amplitude units).
pub const MAG_CLAMP: u32 = 2097152;

/// The spectrum's analysis window: the oldest `RING_CAPACITY` samples of the
/// snapshot, and only when the snapshot fills the window — a shorter one
/// yields `None`, and the frame renders no spectrum primitives at all.
pub fn spectrum_window(snapshot: &Vec<i32>) -> (r: Option<Vec<i32>>)
    ensures
        (r is Some) <==> snapshot@.len() >= RING_CAPACITY,
        r matches Some(w) ==> w@ == snapshot@.take(RING_CAPACITY as int),
{
    if snapshot.len() < RING_CAPACITY {
        return None;
    }
    let mut w: Vec<i32> = Vec::new();
    let mut i: usize = 0;
    while i < RING_CAPACITY
        invariant
            snapshot@.len() >= RING_CAPACITY,
            i <= RING_CAPACITY,
            w@ == snapshot@.take(i as int),
        decreases RING_CAPACITY - i,
    {
        w.push(snapshot[i]);
        proof {
            assert(w@ =~= snapshot@.take(i as int + 1));
        }
        i = i + 1;
    }
    Some(w)
}

/// The sum of `n` magnitudes starting at `lo`.
pub open spec fn mag_sum(m: Seq<u32>, lo: int, n: nat) -> int
    decreases n,
{
    if n == 0 {
        0
    } else {
        mag_sum(m, lo, (n - 1) as nat) + m[lo + n - 1]
    }
}

/// Bar `g`'s pixel height: the average magnitude of its bin group, scaled so
/// that `MAG_CLAMP` reaches the full rectangle height, and clamped there.
pub open spec fn bar_height(m: Seq<u32>, g: int, rect: Rect) -> int {
    let avg = mag_sum(m, g * (SPECTRUM_GROUP as int), SPECTRUM_GROUP as nat) / (
    SPECTRUM_GROUP as int);
    let clamped = if avg > MAG_CLAMP { MAG_CLAMP as int } else { avg };
    clamped * rect.height / (MAG_CLAMP as int)
}

/// Bar `g`: a vertical bar rising from the rectangle's bottom edge at an
/// evenly spaced horizontal position.
pub open spec fn spectrum_bar(m: Seq<u32>, g: int, rect: Rect) -> Primitive {
    Primitive::Bar {
        x: (rect.left + g * rect.width / (SPECTRUM_BARS as int)) as i64,
        y_bottom: rect.bottom() as i64,
        y_top: (rect.bottom() - bar_height(m, g, rect)) as i64,
    }
}

/// The whole spectrum frame: one bar per bin group, left to right.
pub open spec fn spectrum_spec(m: Seq<u32>, rect: Rect) -> Seq<Primitive> {
    Seq::new(SPECTRUM_BARS as nat, |g: int| spectrum_bar(m, g, rect))
}

/// Renders magnitude bars; exact for every magnitude vector of the right
/// length, whatever the FFT produced.
pub fn render_spectrum(mags: &Vec<u32>, rect: &Rect) -> (r: Vec<Primitive>)
    requires
        rect.wf(),
        mags@.len() == FFT_BINS,
    ensures
        r@ == spectrum_spec(mags@, *rect),
{
    let mut out: Vec<Primitive> = Vec::new();
    let mut g: usize = 0;
    while g < SPECTRUM_BARS
        invariant
            rect.wf(),
            mags@.len() == FFT_BINS,
            g <= SPECTRUM_BARS,
            out@ == spectrum_spec(mags@, *rect).take(g as int),
        decreases SPECTRUM_BARS - g,
    {
        let mut sum: u64 = 0;
        let mut j: usize = 0;
        while j < SPECTRUM_GROUP
            invariant
                mags@.len() == FFT_BINS,
                g < SPECTRUM_BARS,
                j <= SPECTRUM_GROUP,
                sum == mag_sum(mags@, g as int * (SPECTRUM_GROUP as int), j as nat),
                sum <= j * 4294967295,
            decreases SPECTRUM_GROUP - j,
        {
            sum = sum + mags[g * SPECTRUM_GROUP + j] as u64;
            j = j + 1;
        }
        let avg: u64 = sum / (SPECTRUM_GROUP as u64);
        let clamped: u64 = if avg > MAG_CLAMP as u64 {
            MAG_CLAMP as u64
        } else {
            avg
        };
        proof {
            lemma_scaled_div_bound(clamped as int, MAG_CLAMP as int, rect.height as int);
            lemma_mul_inequality(clamped as int, MAG_CLAMP as int, rect.height as int);
            lemma_scaled_div_bound(g as int, SPECTRUM_BARS as int, rect.width as int);
            lemma_mul_inequality(g as int, SPECTRUM_BARS as int, rect.width as int);
        }
        let height: i64 = ((clamped as i64) * (rect.height as i64)) / (MAG_CLAMP as i64);
        let x: i64 = rect.left as i64 + ((g as i64) * (rect.width as i64)) / (
        SPECTRUM_BARS as i64);
        let y_bottom: i64 = rect.top as i64 + rect.height as i64;
        out.push(Primitive::Bar { x, y_bottom, y_top: y_bottom - height });
        proof {
            assert(out@ =~= spectrum_spec(mags@, *rect).take(g as int + 1));
        }
        g = g + 1;
    }
    proof {
        assert(out@ =~= spectrum_spec(mags@, *rect));
    }
    out
}

} // verus!
