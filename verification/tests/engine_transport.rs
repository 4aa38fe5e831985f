use audio_pipeline::engine::{apply_volume, AudioEngine, DecodedAudio, LoadError, VOLUME_SCALE};
use audio_pipeline::engine::Track;

fn decoded(samples: Vec<i32>) -> DecodedAudio {
    DecodedAudio { samples, channels: 2, sample_rate: 44100, duration_seconds: Some(1) }
}

#[test]
fn new_engine_is_empty_and_unpaused() {
    let e = AudioEngine::new();
    assert!(e.is_empty());
    assert!(!e.is_paused());
    assert_eq!(e.position_index(), 0);
    assert!(e.ring_buffer_snapshot().is_empty());
}

#[test]
fn position_counts_pulls_and_resets_on_load() {
    let mut e = AudioEngine::new();
    e.load(Ok(decoded(vec![10, 20, 30, 40, 50]))).unwrap();
    assert_eq!(e.position_index(), 0);
    for _ in 0..3 {
        assert!(e.next_device_sample().is_some());
    }
    assert_eq!(e.position_index(), 3);
    e.load(Ok(decoded(vec![7, 8]))).unwrap();
    assert_eq!(e.position_index(), 0);
}

#[test]
fn load_failure_returns_io_error_and_keeps_session() {
    let mut e = AudioEngine::new();
    e.load(Ok(decoded(vec![100, 200, 300]))).unwrap();
    assert_eq!(e.next_device_sample(), Some(100));
    let before_pos = e.position_index();
    let before_snap = e.ring_buffer_snapshot();
    let r = e.load(Err(LoadError::IoError));
    assert_eq!(r, Err(LoadError::IoError));
    assert_eq!(e.position_index(), before_pos);
    assert_eq!(e.ring_buffer_snapshot(), before_snap);
    assert!(!e.is_empty());
    assert_eq!(e.next_device_sample(), Some(200));
}

#[test]
fn decode_error_surfaces_unchanged() {
    let mut e = AudioEngine::new();
    let r = e.load(Err(LoadError::DecodeError));
    assert_eq!(r, Err(LoadError::DecodeError));
    assert!(e.is_empty());
}

#[test]
fn scenario_load_then_stop_reads_zero_and_empty() {
    let mut e = AudioEngine::new();
    e.load(Ok(decoded(vec![1, 2, 3]))).unwrap();
    e.stop();
    assert_eq!(e.position_index(), 0);
    assert!(e.is_empty());
}

#[test]
fn stop_keeps_ring_contents() {
    let mut e = AudioEngine::new();
    e.load(Ok(decoded(vec![11, 22, 33]))).unwrap();
    e.next_device_sample();
    e.next_device_sample();
    e.stop();
    assert_eq!(e.ring_buffer_snapshot(), vec![11, 22]);
    e.load(Ok(decoded(vec![44]))).unwrap();
    assert_eq!(e.ring_buffer_snapshot(), vec![11, 22]);
    e.next_device_sample();
    assert_eq!(e.ring_buffer_snapshot(), vec![11, 22, 44]);
}

#[test]
fn pause_blocks_pulls_and_resume_releases() {
    let mut e = AudioEngine::new();
    e.load(Ok(decoded(vec![5, 6]))).unwrap();
    e.pause();
    assert!(e.is_paused());
    assert_eq!(e.next_device_sample(), None);
    assert_eq!(e.position_index(), 0);
    e.resume();
    assert!(!e.is_paused());
    assert_eq!(e.next_device_sample(), Some(5));
    e.pause();
    e.play();
    assert_eq!(e.next_device_sample(), Some(6));
}

#[test]
fn exhausted_session_retires_and_ring_survives() {
    let mut e = AudioEngine::new();
    e.load(Ok(decoded(vec![9]))).unwrap();
    assert_eq!(e.next_device_sample(), Some(9));
    assert_eq!(e.next_device_sample(), None);
    assert!(e.is_empty());
    assert_eq!(e.ring_buffer_snapshot(), vec![9]);
}

#[test]
fn scenario_zero_volume_plays_silence() {
    let mut e = AudioEngine::new();
    e.set_volume(0);
    e.load(Ok(decoded(vec![1000, -2000, 32767]))).unwrap();
    assert_eq!(e.next_device_sample(), Some(0));
    assert_eq!(e.next_device_sample(), Some(0));
    assert_eq!(e.next_device_sample(), Some(0));
    assert_eq!(e.next_device_sample(), None);
    assert_eq!(e.ring_buffer_snapshot(), vec![1000, -2000, 32767]);
}

#[test]
fn volume_scales_and_clamps() {
    assert_eq!(apply_volume(100, VOLUME_SCALE), 100);
    assert_eq!(apply_volume(-32768, VOLUME_SCALE), -32768);
    assert_eq!(apply_volume(100, 512), 50);
    assert_eq!(apply_volume(-100, 512), -50);
    assert_eq!(apply_volume(32767, 0), 0);

    let mut e = AudioEngine::new();
    e.set_volume(5000);
    e.load(Ok(decoded(vec![123]))).unwrap();
    assert_eq!(e.next_device_sample(), Some(123));

    let mut e2 = AudioEngine::new();
    e2.set_volume(-17);
    e2.load(Ok(decoded(vec![123]))).unwrap();
    assert_eq!(e2.next_device_sample(), Some(0));
}

#[test]
fn track_from_metadata_fills_defaults() {
    let t = Track::from_metadata(
        String::from("song.flac"),
        String::from("/music/song.flac"),
        None,
        Some(String::from("Somebody")),
        None,
        245,
    );
    assert_eq!(t.name, "song.flac");
    assert_eq!(t.path, "/music/song.flac");
    assert_eq!(t.title, "");
    assert_eq!(t.artist, "Somebody");
    assert_eq!(t.album, "");
    assert_eq!(t.duration_seconds, 245);
}
