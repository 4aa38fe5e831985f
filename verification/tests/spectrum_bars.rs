use audio_pipeline::engine::{AudioEngine, DecodedAudio};
use audio_pipeline::geom::{Primitive, Rect, Style, VisualizerConfig};
use audio_pipeline::render::render_frame;
use audio_pipeline::ring::RING_CAPACITY;
use audio_pipeline::spectrum::{render_spectrum, spectrum_window, FFT_BINS, SPECTRUM_BARS};

fn rect100() -> Rect {
    Rect { left: 0, top: 0, width: 100, height: 100 }
}

/// The forward real FFT the frame caller runs, in the library's fixed-point
/// magnitude units.
fn fft_mags(window: &[i32]) -> Vec<u32> {
    let mut input: Vec<f32> = window.iter().map(|&s| s as f32 / 32768.0).collect();
    let mut planner = realfft::RealFftPlanner::<f32>::new();
    let r2c = planner.plan_fft_forward(input.len());
    let mut output = r2c.make_output_vec();
    r2c.process(&mut input, &mut output).unwrap();
    output.iter().map(|c| (c.norm() * 32768.0) as u32).collect()
}

fn bar_of(p: &Primitive) -> (i64, i64, i64) {
    match p {
        Primitive::Bar { x, y_bottom, y_top } => (*x, *y_bottom, *y_top),
        _ => panic!("expected a bar"),
    }
}

#[test]
fn fft_window_matches_ring_capacity() {
    assert_eq!(FFT_BINS, RING_CAPACITY / 2 + 1);
}

#[test]
fn short_snapshot_yields_no_window() {
    assert!(spectrum_window(&vec![1; RING_CAPACITY - 1]).is_none());
    assert!(spectrum_window(&vec![]).is_none());
    let w = spectrum_window(&vec![3; RING_CAPACITY + 10]).unwrap();
    assert_eq!(w, vec![3; RING_CAPACITY]);
}

#[test]
fn spectrum_short_snapshot_renders_nothing() {
    let mut c = VisualizerConfig::new();
    c.style = Style::Spectrum;
    let snapshot = vec![1000i32; 100];
    assert!(render_frame(&snapshot, None, &c, &rect100()).is_empty());
    let fake_mags = vec![7u32; FFT_BINS];
    assert!(render_frame(&snapshot, Some(&fake_mags), &c, &rect100()).is_empty());
}

#[test]
fn spectrum_of_silence_is_all_baseline_bars() {
    let window = vec![0i32; RING_CAPACITY];
    let mags = fft_mags(&window);
    assert_eq!(mags.len(), FFT_BINS);
    let prims = render_spectrum(&mags, &rect100());
    assert_eq!(prims.len(), SPECTRUM_BARS);
    for (g, p) in prims.iter().enumerate() {
        let (x, y_bottom, y_top) = bar_of(p);
        assert_eq!(x, (g as i64) * 100 / 64);
        assert_eq!(y_bottom, 100);
        assert_eq!(y_top, 100);
    }
}

#[test]
fn spectrum_of_constant_signal_saturates_the_first_bar() {
    let window = vec![32768i32; RING_CAPACITY];
    let mags = fft_mags(&window);
    let prims = render_spectrum(&mags, &rect100());
    assert_eq!(prims.len(), SPECTRUM_BARS);
    let (_, y_bottom, y_top) = bar_of(&prims[0]);
    assert_eq!(y_bottom, 100);
    assert_eq!(y_top, 0);
    let (_, _, mid_top) = bar_of(&prims[32]);
    assert_eq!(mid_top, 100);
}

#[test]
fn scenario_spectrum_empty_until_ring_fills() {
    let mut c = VisualizerConfig::new();
    c.style = Style::Spectrum;
    c.buffer_size = 128;

    let mut e = AudioEngine::new();
    let samples: Vec<i32> = (0..3000).map(|i| if i % 2 == 0 { 16000 } else { -16000 }).collect();
    let audio =
        DecodedAudio { samples, channels: 2, sample_rate: 44100, duration_seconds: None };
    e.load(Ok(audio)).unwrap();

    for _ in 0..1000 {
        e.next_device_sample();
    }
    let snap = e.ring_buffer_snapshot();
    assert_eq!(snap.len(), 1000);
    assert!(spectrum_window(&snap).is_none());
    assert!(render_frame(&snap, None, &c, &rect100()).is_empty());

    for _ in 0..1500 {
        e.next_device_sample();
    }
    let snap = e.ring_buffer_snapshot();
    assert_eq!(snap.len(), RING_CAPACITY);
    let window = spectrum_window(&snap).unwrap();
    let mags = fft_mags(&window);
    let prims = render_frame(&snap, Some(&mags), &c, &rect100());
    assert_eq!(prims.len(), SPECTRUM_BARS);
}
