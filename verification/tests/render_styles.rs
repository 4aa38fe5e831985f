use audio_pipeline::geom::{Point, Primitive, Rect, Style, VisualizerConfig};
use audio_pipeline::render::{
    render_frame, render_lissajous, render_stereo_spread, render_waveform,
};

fn rect100() -> Rect {
    Rect { left: 0, top: 0, width: 100, height: 100 }
}

fn seg(ax: i64, ay: i64, bx: i64, by: i64) -> Primitive {
    Primitive::Segment { a: Point { x: ax, y: ay }, b: Point { x: bx, y: by } }
}

#[test]
fn config_defaults() {
    let c = VisualizerConfig::new();
    assert_eq!(c.style, Style::Waveform);
    assert_eq!(c.buffer_size, 512);
    assert!(!c.connect_lines);
    assert_eq!(c.playback_speed_permille, 1000);
}

#[test]
fn oversized_buffer_request_falls_back_to_default() {
    let mut c = VisualizerConfig::new();
    c.buffer_size = 4096;
    assert_eq!(c.effective_buffer_size(), 512);
    c.buffer_size = 2048;
    assert_eq!(c.effective_buffer_size(), 2048);
    c.buffer_size = 16;
    assert_eq!(c.effective_buffer_size(), 16);
}

#[test]
fn waveform_silence_is_flat_on_the_center_line() {
    let snapshot = vec![0i32; 8];
    let prims = render_waveform(&snapshot, &rect100());
    assert_eq!(prims.len(), 3);
    assert_eq!(prims[0], seg(0, 50, 25, 50));
    assert_eq!(prims[1], seg(25, 50, 50, 50));
    assert_eq!(prims[2], seg(50, 50, 75, 50));
}

#[test]
fn waveform_exact_segment_for_known_samples() {
    let snapshot = vec![16384, 0, -16384, 0];
    let prims = render_waveform(&snapshot, &rect100());
    assert_eq!(prims, vec![seg(0, 37, 50, 62)]);
}

#[test]
fn waveform_empty_and_single_pair_draw_nothing() {
    assert!(render_waveform(&vec![], &rect100()).is_empty());
    assert!(render_waveform(&vec![5, 5], &rect100()).is_empty());
}

#[test]
fn lissajous_full_left_sits_at_one_fixed_point() {
    let snapshot = vec![32768, 0, 32768, 0, 32768, 0];
    let prims = render_lissajous(&snapshot, &rect100(), false);
    assert_eq!(prims.len(), 3);
    for p in &prims {
        assert_eq!(*p, Primitive::Dot { at: Point { x: 100, y: 50 } });
    }
}

#[test]
fn lissajous_connect_draws_segments_between_points() {
    let snapshot = vec![0, 0, 32768, 0];
    let prims = render_lissajous(&snapshot, &rect100(), true);
    assert_eq!(prims, vec![seg(50, 50, 100, 50)]);
}

#[test]
fn stereo_spread_rotates_and_fans_from_the_bottom() {
    let loud = render_stereo_spread(&vec![32768, 32768], &rect100());
    assert_eq!(loud, vec![Primitive::Dot { at: Point { x: 35, y: 30 } }]);
    let silent = render_stereo_spread(&vec![0, 0], &rect100());
    assert_eq!(silent, vec![Primitive::Dot { at: Point { x: 35, y: 100 } }]);
}

#[test]
fn render_frame_dispatches_styles() {
    let snapshot = vec![16384, 0, -16384, 0];
    let mut c = VisualizerConfig::new();
    c.style = Style::Waveform;
    assert_eq!(render_frame(&snapshot, None, &c, &rect100()), render_waveform(
        &snapshot,
        &rect100(),
    ));
    c.style = Style::Lissajous;
    assert_eq!(render_frame(&snapshot, None, &c, &rect100()), render_lissajous(
        &snapshot,
        &rect100(),
        false,
    ));
    c.style = Style::StereoSpread;
    assert_eq!(render_frame(&snapshot, None, &c, &rect100()), render_stereo_spread(
        &snapshot,
        &rect100(),
    ));
}

#[test]
fn render_frame_truncates_to_the_buffer_budget() {
    let snapshot = vec![0, 0, 0, 0, 32767, 32767, -32768, -32768];
    let mut c = VisualizerConfig::new();
    c.style = Style::Waveform;
    c.buffer_size = 4;
    let truncated = render_frame(&snapshot, None, &c, &rect100());
    assert_eq!(truncated, render_waveform(&vec![0, 0, 0, 0], &rect100()));
}
