use audio_pipeline::ring::RingBuffer;
use audio_pipeline::source::{MemorySource, SampleSource, SampleTap};

#[test]
fn memory_source_yields_in_order_then_exhausts() {
    let mut src = MemorySource::new(vec![4, 5, 6], 2, 48000, Some(3));
    assert_eq!(src.channels(), 2);
    assert_eq!(src.sample_rate(), 48000);
    assert_eq!(src.current_frame_len(), None);
    assert_eq!(src.total_duration_seconds(), Some(3));
    assert_eq!(src.next_sample(), Some(4));
    assert_eq!(src.next_sample(), Some(5));
    assert_eq!(src.next_sample(), Some(6));
    assert_eq!(src.next_sample(), None);
    assert_eq!(src.next_sample(), None);
}

#[test]
fn tap_reports_inner_metadata_unchanged() {
    let src = MemorySource::new(vec![1], 6, 96000, None);
    let tap = SampleTap::new(src, RingBuffer::new());
    assert_eq!(tap.channels(), 6);
    assert_eq!(tap.sample_rate(), 96000);
    assert_eq!(tap.current_frame_len(), None);
    assert_eq!(tap.total_duration_seconds(), None);
}

#[test]
fn tap_forwards_samples_unchanged_while_counting_and_recording() {
    let src = MemorySource::new(vec![100, -200, 300], 2, 44100, None);
    let mut tap = SampleTap::new(src, RingBuffer::new());
    assert_eq!(tap.position_index(), 0);
    assert_eq!(tap.pull(), Some(100));
    assert_eq!(tap.pull(), Some(-200));
    assert_eq!(tap.position_index(), 2);
    assert_eq!(tap.ring_snapshot(), vec![100, -200]);
    assert_eq!(tap.pull(), Some(300));
    assert_eq!(tap.pull(), None);
    assert_eq!(tap.position_index(), 3);
    assert_eq!(tap.ring_snapshot(), vec![100, -200, 300]);
}

#[test]
fn tap_is_itself_a_sample_source() {
    let inner = MemorySource::new(vec![7, 8], 2, 22050, Some(1));
    let mut tap = SampleTap::new(inner, RingBuffer::new());
    let first = SampleSource::next_sample(&mut tap);
    assert_eq!(first, Some(7));
    assert_eq!(tap.position_index(), 1);
}

#[test]
fn tap_keeps_prior_ring_contents_until_overwritten() {
    let mut ring = RingBuffer::new();
    ring.push_back(-1);
    ring.push_back(-2);
    let src = MemorySource::new(vec![3], 2, 44100, None);
    let mut tap = SampleTap::new(src, ring);
    assert_eq!(tap.ring_snapshot(), vec![-1, -2]);
    tap.pull();
    assert_eq!(tap.ring_snapshot(), vec![-1, -2, 3]);
}
