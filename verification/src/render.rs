//! Pure rendering of a snapshot into drawable primitives.
//!
//! Each style is a stateless function of the snapshot, the configuration and
//! the target rectangle. Samples are interleaved stereo pairs; every
//! coordinate formula divides a nonnegative bounded numerator by a fixed
//! positive denominator, so each point stays inside (or on the edge of) the
//! rectangle.

use vstd::prelude::*;
use vstd::arithmetic::div_mod::{lemma_div_denominator, lemma_div_multiples_vanish};
use vstd::arithmetic::mul::lemma_mul_inequality;
use crate::{valid_sample, SAMPLE_SCALE};
use crate::geom::{lemma_scaled_div_bound, Point, Primitive, Rect, Style, VisualizerConfig};
use crate::ring::RING_CAPACITY;
use crate::spectrum::{render_spectrum, spectrum_spec, FFT_BINS};

verus! {

/// Numerator of the fixed-point cosine (and sine) of 45 degrees.
pub const ROT45_NUM: i32 = 181;

/// Denominator of the fixed-point cosine (and sine) of 45 degrees.
pub const ROT45_DEN: i32 = 256;

pub open spec fn all_valid_samples(s: Seq<i32>) -> bool {
    forall|i: int| 0 <= i < s.len() ==> valid_sample(#[trigger] s[i])
}

/// How many complete stereo pairs the snapshot holds; an odd trailing sample
/// is ignored.
pub open spec fn pair_count(s: Seq<i32>) -> int {
    s.len() as int / 2
}

/// Waveform: each stereo pair averaged to one scalar, drawn on the vertical
/// midline, amplitude 1.0 spanning half the rectangle height.
pub open spec fn waveform_point(s: Seq<i32>, rect: Rect, i: int) -> Point {
    Point {
        x: (rect.left + i * rect.width / pair_count(s)) as i64,
        y: (rect.top + (2 * SAMPLE_SCALE - (s[2 * i] + s[2 * i + 1])) * rect.height / (4
            * SAMPLE_SCALE)) as i64,
    }
}

/// Waveform frame: successive averaged points joined by line segments.
pub open spec fn waveform_spec(s: Seq<i32>, rect: Rect) -> Seq<Primitive> {
    let pairs = pair_count(s);
    if pairs == 0 {
        Seq::empty()
    } else {
        Seq::new(
            (pairs - 1) as nat,
            |i: int|
                Primitive::Segment {
                    a: waveform_point(s, rect, i),
                    b: waveform_point(s, rect, i + 1),
                },
        )
    }
}

/// Lissajous: pair `(l, r)` plotted at the rectangle position whose
/// horizontal offset follows `l` and whose vertical offset follows `-r`,
/// amplitude 1.0 spanning half the rectangle in each direction.
pub open spec fn lissajous_point(s: Seq<i32>, rect: Rect, i: int) -> Point {
    Point {
        x: (rect.left + (s[2 * i] + SAMPLE_SCALE) * rect.width / (2 * SAMPLE_SCALE)) as i64,
        y: (rect.top + (SAMPLE_SCALE - s[2 * i + 1]) * rect.height / (2 * SAMPLE_SCALE)) as i64,
    }
}

/// Lissajous frame: one point per pair; with `connect` set, successive
/// points are joined by line segments instead of drawn as dots.
pub open spec fn lissajous_spec(s: Seq<i32>, rect: Rect, connect: bool) -> Seq<Primitive> {
    let pairs = pair_count(s);
    if connect {
        if pairs == 0 {
            Seq::empty()
        } else {
            Seq::new(
                (pairs - 1) as nat,
                |i: int|
                    Primitive::Segment {
                        a: lissajous_point(s, rect, i),
                        b: lissajous_point(s, rect, i + 1),
                    },
            )
        }
    } else {
        Seq::new(pairs as nat, |i: int| Primitive::Dot { at: lissajous_point(s, rect, i) })
    }
}

pub open spec fn abs_sample(v: i32) -> int {
    if v >= 0 {
        v as int
    } else {
        -(v as int)
    }
}

/// Stereo spread: the pair's absolute values rotated by 45 degrees and
/// fanned upward from the bottom center of the rectangle — balanced energy
/// rises straight up, one-sided energy leans toward that side.
pub open spec fn spread_point(s: Seq<i32>, rect: Rect, i: int) -> Point {
    let al = abs_sample(s[2 * i]);
    let ar = abs_sample(s[2 * i + 1]);
    Point {
        x: (rect.left + (ar - al + SAMPLE_SCALE) * ROT45_NUM * rect.width / (2 * SAMPLE_SCALE
            * ROT45_DEN)) as i64,
        y: (rect.bottom() - (al + ar) * ROT45_NUM * rect.height / (2 * SAMPLE_SCALE
            * ROT45_DEN)) as i64,
    }
}

/// Stereo spread frame: one scattered dot per pair.
pub open spec fn spread_spec(s: Seq<i32>, rect: Rect) -> Seq<Primitive> {
    Seq::new(pair_count(s) as nat, |i: int| Primitive::Dot { at: spread_point(s, rect, i) })
}

/// The slice of the snapshot a frame draws: its oldest samples up to the
/// configured budget.
pub open spec fn visible_window(s: Seq<i32>, config: VisualizerConfig) -> Seq<i32> {
    if s.len() <= config.spec_effective_buffer_size() {
        s
    } else {
        s.take(config.spec_effective_buffer_size())
    }
}

fn waveform_point_at(snapshot: &Vec<i32>, rect: &Rect, i: usize) -> (p: Point)
    requires
        rect.wf(),
        snapshot@.len() <= RING_CAPACITY,
        all_valid_samples(snapshot@),
        2 * i + 1 < snapshot@.len(),
    ensures
        p == waveform_point(snapshot@, *rect, i as int),
{
    let pairs = snapshot.len() / 2;
    let a = snapshot[2 * i];
    let b = snapshot[2 * i + 1];
    let num: i64 = 2 * (SAMPLE_SCALE as i64) - (a as i64 + b as i64);
    proof {
        lemma_scaled_div_bound(num as int, 4 * SAMPLE_SCALE as int, rect.height as int);
        lemma_mul_inequality(num as int, 4 * SAMPLE_SCALE as int, rect.height as int);
        lemma_scaled_div_bound(i as int, pairs as int, rect.width as int);
        lemma_mul_inequality(i as int, RING_CAPACITY as int, rect.width as int);
    }
    let yoff: i64 = num * (rect.height as i64) / (4 * SAMPLE_SCALE as i64);
    let xoff: i64 = (i as i64) * (rect.width as i64) / (pairs as i64);
    Point { x: rect.left as i64 + xoff, y: rect.top as i64 + yoff }
}

/// Renders the waveform style; exact per `waveform_spec`.
pub fn render_waveform(snapshot: &Vec<i32>, rect: &Rect) -> (r: Vec<Primitive>)
    requires
        rect.wf(),
        snapshot@.len() <= RING_CAPACITY,
        all_valid_samples(snapshot@),
    ensures
        r@ == waveform_spec(snapshot@, *rect),
{
    let mut out: Vec<Primitive> = Vec::new();
    let pairs = snapshot.len() / 2;
    if pairs == 0 {
        proof {
            assert(out@ =~= waveform_spec(snapshot@, *rect));
        }
        return out;
    }
    let mut i: usize = 0;
    while i < pairs - 1
        invariant
            rect.wf(),
            snapshot@.len() <= RING_CAPACITY,
            all_valid_samples(snapshot@),
            1 <= pairs == pair_count(snapshot@),
            i <= pairs - 1,
            out@ == waveform_spec(snapshot@, *rect).take(i as int),
        decreases pairs - 1 - i,
    {
        let a = waveform_point_at(snapshot, rect, i);
        let b = waveform_point_at(snapshot, rect, i + 1);
        out.push(Primitive::Segment { a, b });
        proof {
            assert(out@ =~= waveform_spec(snapshot@, *rect).take(i as int + 1));
        }
        i = i + 1;
    }
    proof {
        assert(out@ =~= waveform_spec(snapshot@, *rect));
    }
    out
}

fn lissajous_point_at(snapshot: &Vec<i32>, rect: &Rect, i: usize) -> (p: Point)
    requires
        rect.wf(),
        all_valid_samples(snapshot@),
        2 * i + 1 < snapshot@.len(),
    ensures
        p == lissajous_point(snapshot@, *rect, i as int),
{
    let n = snapshot.len();
    proof {
        assert(2 * i + 1 < n);
    }
    let l = snapshot[2 * i];
    let r = snapshot[2 * i + 1];
    let xnum: i64 = l as i64 + SAMPLE_SCALE as i64;
    let ynum: i64 = SAMPLE_SCALE as i64 - r as i64;
    proof {
        lemma_scaled_div_bound(xnum as int, 2 * SAMPLE_SCALE as int, rect.width as int);
        lemma_mul_inequality(xnum as int, 2 * SAMPLE_SCALE as int, rect.width as int);
        lemma_scaled_div_bound(ynum as int, 2 * SAMPLE_SCALE as int, rect.height as int);
        lemma_mul_inequality(ynum as int, 2 * SAMPLE_SCALE as int, rect.height as int);
    }
    let xoff: i64 = xnum * (rect.width as i64) / (2 * SAMPLE_SCALE as i64);
    let yoff: i64 = ynum * (rect.height as i64) / (2 * SAMPLE_SCALE as i64);
    Point { x: rect.left as i64 + xoff, y: rect.top as i64 + yoff }
}

/// Renders the Lissajous (vectorscope) style; exact per `lissajous_spec`.
pub fn render_lissajous(snapshot: &Vec<i32>, rect: &Rect, connect: bool) -> (r: Vec<Primitive>)
    requires
        rect.wf(),
        all_valid_samples(snapshot@),
    ensures
        r@ == lissajous_spec(snapshot@, *rect, connect),
{
    let mut out: Vec<Primitive> = Vec::new();
    let pairs = snapshot.len() / 2;
    if connect {
        if pairs == 0 {
            proof {
                assert(out@ =~= lissajous_spec(snapshot@, *rect, connect));
            }
            return out;
        }
        let mut i: usize = 0;
        while i < pairs - 1
            invariant
                rect.wf(),
                all_valid_samples(snapshot@),
                1 <= pairs == pair_count(snapshot@),
                i <= pairs - 1,
                out@ == lissajous_spec(snapshot@, *rect, true).take(i as int),
            decreases pairs - 1 - i,
        {
            let a = lissajous_point_at(snapshot, rect, i);
            let b = lissajous_point_at(snapshot, rect, i + 1);
            out.push(Primitive::Segment { a, b });
            proof {
                assert(out@ =~= lissajous_spec(snapshot@, *rect, true).take(i as int + 1));
            }
            i = i + 1;
        }
    } else {
        let mut i: usize = 0;
        while i < pairs
            invariant
                rect.wf(),
                all_valid_samples(snapshot@),
                pairs == pair_count(snapshot@),
                i <= pairs,
                out@ == lissajous_spec(snapshot@, *rect, false).take(i as int),
            decreases pairs - i,
        {
            let at = lissajous_point_at(snapshot, rect, i);
            out.push(Primitive::Dot { at });
            proof {
                assert(out@ =~= lissajous_spec(snapshot@, *rect, false).take(i as int + 1));
            }
            i = i + 1;
        }
    }
    proof {
        assert(out@ =~= lissajous_spec(snapshot@, *rect, connect));
    }
    out
}

fn spread_point_at(snapshot: &Vec<i32>, rect: &Rect, i: usize) -> (p: Point)
    requires
        rect.wf(),
        all_valid_samples(snapshot@),
        2 * i + 1 < snapshot@.len(),
    ensures
        p == spread_point(snapshot@, *rect, i as int),
{
    let n = snapshot.len();
    proof {
        assert(2 * i + 1 < n);
    }
    let l = snapshot[2 * i];
    let r = snapshot[2 * i + 1];
    proof {
        assert(valid_sample(snapshot@[2 * i as int]));
        assert(valid_sample(snapshot@[2 * i as int + 1]));
    }
    let al: i64 = if l >= 0 {
        l as i64
    } else {
        -(l as i64)
    };
    let ar: i64 = if r >= 0 {
        r as i64
    } else {
        -(r as i64)
    };
    proof {
        assert(0 <= (ar - al + SAMPLE_SCALE) * ROT45_NUM <= 2 * SAMPLE_SCALE * ROT45_NUM && 0 <= (
        al + ar) * ROT45_NUM <= 2 * SAMPLE_SCALE * ROT45_NUM) by (nonlinear_arith)
            requires
                0 <= al <= SAMPLE_SCALE,
                0 <= ar <= SAMPLE_SCALE,
        ;
    }
    let xnum: i64 = (ar - al + SAMPLE_SCALE as i64) * (ROT45_NUM as i64);
    let ynum: i64 = (al + ar) * (ROT45_NUM as i64);
    let den: i64 = 2 * (SAMPLE_SCALE as i64) * (ROT45_DEN as i64);
    proof {
        lemma_scaled_div_bound(xnum as int, den as int, rect.width as int);
        lemma_mul_inequality(xnum as int, den as int, rect.width as int);
        lemma_scaled_div_bound(ynum as int, den as int, rect.height as int);
        lemma_mul_inequality(ynum as int, den as int, rect.height as int);
    }
    let xoff: i64 = xnum * (rect.width as i64) / den;
    let yoff: i64 = ynum * (rect.height as i64) / den;
    Point {
        x: rect.left as i64 + xoff,
        y: rect.top as i64 + rect.height as i64 - yoff,
    }
}

/// Renders the stereo spread style; exact per `spread_spec`.
pub fn render_stereo_spread(snapshot: &Vec<i32>, rect: &Rect) -> (r: Vec<Primitive>)
    requires
        rect.wf(),
        all_valid_samples(snapshot@),
    ensures
        r@ == spread_spec(snapshot@, *rect),
{
    let mut out: Vec<Primitive> = Vec::new();
    let pairs = snapshot.len() / 2;
    let mut i: usize = 0;
    while i < pairs
        invariant
            rect.wf(),
            all_valid_samples(snapshot@),
            pairs == pair_count(snapshot@),
            i <= pairs,
            out@ == spread_spec(snapshot@, *rect).take(i as int),
        decreases pairs - i,
    {
        let at = spread_point_at(snapshot, rect, i);
        out.push(Primitive::Dot { at });
        proof {
            assert(out@ =~= spread_spec(snapshot@, *rect).take(i as int + 1));
        }
        i = i + 1;
    }
    proof {
        assert(out@ =~= spread_spec(snapshot@, *rect));
    }
    out
}

fn take_prefix(v: &Vec<i32>, n: usize) -> (r: Vec<i32>)
    requires
        n <= v@.len(),
    ensures
        r@ == v@.take(n as int),
{
    let mut r: Vec<i32> = Vec::new();
    let mut i: usize = 0;
    while i < n
        invariant
            n <= v@.len(),
            i <= n,
            r@ == v@.take(i as int),
        decreases n - i,
    {
        r.push(v[i]);
        proof {
            assert(r@ =~= v@.take(i as int + 1));
        }
        i = i + 1;
    }
    r
}

/// One frame of the visualizer: a pure function of the snapshot, the
/// configuration and the rectangle.
///
/// The three direct styles draw the visible window of the snapshot. The
/// spectrum style draws the bars of the magnitude vector handed in by the
/// caller, who runs the forward FFT (floating-point work this library does
/// not hold) over `spectrum_window`; while the snapshot is shorter than the
/// analysis window — or no magnitudes were supplied — the frame renders no
/// spectrum primitives at all rather than failing.
pub fn render_frame(
    snapshot: &Vec<i32>,
    spectrum_mags: Option<&Vec<u32>>,
    config: &VisualizerConfig,
    rect: &Rect,
) -> (r: Vec<Primitive>)
    requires
        rect.wf(),
        all_valid_samples(snapshot@),
        spectrum_mags matches Some(m) ==> m@.len() == FFT_BINS,
    ensures
        config.style == Style::Waveform ==> r@ == waveform_spec(
            visible_window(snapshot@, *config),
            *rect,
        ),
        config.style == Style::Lissajous ==> r@ == lissajous_spec(
            visible_window(snapshot@, *config),
            *rect,
            config.connect_lines,
        ),
        config.style == Style::StereoSpread ==> r@ == spread_spec(
            visible_window(snapshot@, *config),
            *rect,
        ),
        config.style == Style::Spectrum && snapshot@.len() < RING_CAPACITY ==> r@.len() == 0,
        config.style == Style::Spectrum && spectrum_mags is None ==> r@.len() == 0,
        config.style == Style::Spectrum && snapshot@.len() >= RING_CAPACITY ==> (spectrum_mags
            matches Some(m) ==> r@ == spectrum_spec(m@, *rect)),
{
    match config.style {
        Style::Spectrum => {
            if snapshot.len() < RING_CAPACITY {
                Vec::new()
            } else {
                match spectrum_mags {
                    Some(m) => render_spectrum(m, rect),
                    None => Vec::new(),
                }
            }
        },
        style => {
            let ebs = config.effective_buffer_size();
            let n = if snapshot.len() <= ebs {
                snapshot.len()
            } else {
                ebs
            };
            let window = take_prefix(snapshot, n);
            proof {
                assert(window@ =~= visible_window(snapshot@, *config));
                assert(all_valid_samples(window@));
            }
            match style {
                Style::Waveform => render_waveform(&window, rect),
                Style::Lissajous => render_lissajous(&window, rect, config.connect_lines),
                Style::StereoSpread => render_stereo_spread(&window, rect),
                Style::Spectrum => vstd::pervasive::unreached(),
            }
        },
    }
}

/// On an all-zero snapshot of `2 * k` samples the waveform is flat: `k - 1`
/// segments, every endpoint on the rectangle's vertical center line.
pub proof fn lemma_waveform_flat_on_silence(s: Seq<i32>, rect: Rect)
    requires
        rect.wf(),
        s.len() % 2 == 0,
        s.len() <= RING_CAPACITY,
        forall|i: int| 0 <= i < s.len() ==> #[trigger] s[i] == 0,
    ensures
        s.len() == 0 ==> waveform_spec(s, rect).len() == 0,
        s.len() > 0 ==> waveform_spec(s, rect).len() == s.len() / 2 - 1,
        forall|j: int|
            0 <= j < waveform_spec(s, rect).len() ==> (#[trigger] waveform_spec(s, rect)[j]
                matches Primitive::Segment { a, b } && a.y == rect.center_y()
                && b.y == rect.center_y()),
{
    assert forall|i: int| 0 <= i < pair_count(s) implies waveform_point(s, rect, i).y
        == rect.center_y() by {
        assert(s[2 * i] == 0);
        assert(s[2 * i + 1] == 0);
        lemma_div_denominator(2 * SAMPLE_SCALE * rect.height, 2 * SAMPLE_SCALE as int, 2);
        lemma_div_multiples_vanish(rect.height as int, 2 * SAMPLE_SCALE as int);
        lemma_scaled_div_bound(2 * SAMPLE_SCALE as int, 4 * SAMPLE_SCALE as int, rect.height as int);
        assert(2 * SAMPLE_SCALE * rect.height / (4 * SAMPLE_SCALE) == rect.height / 2);
    }
}

/// On a snapshot alternating full-left, zero-right — pairs `(1.0, 0.0)` —
/// every Lissajous dot lands on the single fixed point at the rectangle's
/// right edge, vertically centered.
pub proof fn lemma_lissajous_fixed_point(s: Seq<i32>, rect: Rect)
    requires
        rect.wf(),
        s.len() % 2 == 0,
        forall|i: int| 0 <= i < s.len() && i % 2 == 0 ==> #[trigger] s[i] == SAMPLE_SCALE,
        forall|i: int| 0 <= i < s.len() && i % 2 == 1 ==> #[trigger] s[i] == 0,
    ensures
        lissajous_spec(s, rect, false).len() == s.len() / 2,
        forall|j: int|
            0 <= j < lissajous_spec(s, rect, false).len() ==> #[trigger] lissajous_spec(
                s,
                rect,
                false,
            )[j] == (Primitive::Dot {
                at: Point {
                    x: (rect.left + rect.width) as i64,
                    y: (rect.top + rect.height / 2) as i64,
                },
            }),
{
    assert forall|i: int| 0 <= i < pair_count(s) implies lissajous_point(s, rect, i) == (Point {
        x: (rect.left + rect.width) as i64,
        y: (rect.top + rect.height / 2) as i64,
    }) by {
        assert(s[2 * i] == SAMPLE_SCALE);
        assert(s[2 * i + 1] == 0);
        lemma_scaled_div_bound(2 * SAMPLE_SCALE as int, 2 * SAMPLE_SCALE as int, rect.width as int);
        lemma_div_denominator(SAMPLE_SCALE * rect.height, SAMPLE_SCALE as int, 2);
        lemma_div_multiples_vanish(rect.height as int, SAMPLE_SCALE as int);
        assert(SAMPLE_SCALE * rect.height / (2 * SAMPLE_SCALE) == rect.height / 2);
    }
}

} // verus!
