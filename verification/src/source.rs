//! Streaming sample sources and the recording tap.
//!
//! `SampleSource` is the capability a playback device consumes: stream
//! metadata plus one sample per pull. `MemorySource` yields a decoded track
//! held in memory. `SampleTap` decorates any source: it forwards every pulled
//! sample unchanged while counting it and republishing it into a `RingBuffer`
//! for the visualizer, and is itself a `SampleSource`, so it is substitutable
//! wherever the inner stream would be used.

use vstd::prelude::*;
use crate::valid_sample;
use crate::ring::{RingBuffer, recent_window};

verus! {

/// Metadata a streaming source reports about itself.
#[derive(Clone, Copy)]
pub struct StreamInfo {
    pub channels: u16,
    pub sample_rate: u32,
    /// Samples left in the current frame, where the source knows it.
    pub frame_len: Option<usize>,
    /// Total length of the stream in whole seconds, where known.
    pub duration_seconds: Option<u64>,
}

/// The capability of a pull-driven sample stream: stable metadata and one
/// sample per pull, in fixed-point amplitude units.
pub trait SampleSource: Sized {
    /// The samples this source has yet to yield, in order.
    spec fn remaining(&self) -> Seq<i32>;

    /// The metadata this source reports; stable across pulls.
    spec fn info(&self) -> StreamInfo;

    spec fn wf(&self) -> bool;

    fn channels(&self) -> (r: u16)
        requires
            self.wf(),
        ensures
            r == self.info().channels,
    ;

    fn sample_rate(&self) -> (r: u32)
        requires
            self.wf(),
        ensures
            r == self.info().sample_rate,
    ;

    fn current_frame_len(&self) -> (r: Option<usize>)
        requires
            self.wf(),
        ensures
            r == self.info().frame_len,
    ;

    fn total_duration_seconds(&self) -> (r: Option<u64>)
        requires
            self.wf(),
        ensures
            r == self.info().duration_seconds,
    ;

    /// Yields the next sample, or `None` once the stream is exhausted.
    fn next_sample(&mut self) -> (r: Option<i32>)
        requires
            old(self).wf(),
        ensures
            final(self).wf(),
            final(self).info() == old(self).info(),
            old(self).remaining().len() > 0 ==> {
                &&& r == Some(old(self).remaining()[0])
                &&& valid_sample(old(self).remaining()[0])
                &&& final(self).remaining() == old(self).remaining().skip(1)
            },
            old(self).remaining().len() == 0 ==> {
                &&& r is None
                &&& final(self).remaining() == old(self).remaining()
            },
    ;
}

/// A decoded track held in memory, yielded one sample per pull.
pub struct MemorySource {
    samples: Vec<i32>,
    pos: usize,
    channels: u16,
    sample_rate: u32,
    duration_seconds: Option<u64>,
}

impl MemorySource {
    /// Builds a source over `samples`; all of them are yet to be yielded.
    pub fn new(
        samples: Vec<i32>,
        channels: u16,
        sample_rate: u32,
        duration_seconds: Option<u64>,
    ) -> (r: MemorySource)
        requires
            forall|i: int| 0 <= i < samples@.len() ==> valid_sample(#[trigger] samples@[i]),
        ensures
            r.wf(),
            r.remaining() == samples@,
            r.info() == (StreamInfo {
                channels,
                sample_rate,
                frame_len: None,
                duration_seconds,
            }),
    {
        let r = MemorySource { samples, pos: 0, channels, sample_rate, duration_seconds };
        proof {
            assert(r.remaining() =~= r.samples@);
        }
        r
    }
}

impl SampleSource for MemorySource {
    closed spec fn remaining(&self) -> Seq<i32> {
        self.samples@.skip(self.pos as int)
    }

    closed spec fn info(&self) -> StreamInfo {
        StreamInfo {
            channels: self.channels,
            sample_rate: self.sample_rate,
            frame_len: None,
            duration_seconds: self.duration_seconds,
        }
    }

    closed spec fn wf(&self) -> bool {
        &&& self.pos <= self.samples@.len()
        &&& forall|i: int|
            0 <= i < self.samples@.len() ==> valid_sample(#[trigger] self.samples@[i])
    }

    fn channels(&self) -> (r: u16) {
        self.channels
    }

    fn sample_rate(&self) -> (r: u32) {
        self.sample_rate
    }

    fn current_frame_len(&self) -> (r: Option<usize>) {
        None
    }

    fn total_duration_seconds(&self) -> (r: Option<u64>) {
        self.duration_seconds
    }

    fn next_sample(&mut self) -> (r: Option<i32>) {
        if self.pos < self.samples.len() {
            let s = self.samples[self.pos];
            self.pos = self.pos + 1;
            proof {
                assert(old(self).remaining()[0] == s);
                assert(self.remaining() =~= old(self).remaining().skip(1));
            }
            Some(s)
        } else {
            proof {
                assert(old(self).remaining().len() == 0);
            }
            None
        }
    }
}

/// A transparent pass-through decorator over a sample stream.
///
/// Each successful pull increments the monotonic position counter and pushes
/// the sample into the owned ring buffer, then forwards the sample unchanged.
/// An exhausted inner stream is propagated without touching counter or ring.
pub struct SampleTap<S: SampleSource> {
    inner: S,
    position: u64,
    ring: RingBuffer,
}

impl<S: SampleSource> SampleTap<S> {
    /// Samples delivered through this tap since it was created.
    pub closed spec fn position(&self) -> u64 {
        self.position
    }

    /// The ring buffer this tap republishes into.
    pub closed spec fn ring(&self) -> RingBuffer {
        self.ring
    }

    /// The inner stream's pending samples, which this tap forwards verbatim.
    pub closed spec fn pending(&self) -> Seq<i32> {
        self.inner.remaining()
    }

    /// The inner stream's metadata, which this tap reports verbatim.
    pub closed spec fn stream_info(&self) -> StreamInfo {
        self.inner.info()
    }

    pub closed spec fn tap_wf(&self) -> bool {
        &&& self.inner.wf()
        &&& self.ring.wf()
        &&& self.position + self.inner.remaining().len() <= u64::MAX
    }

    /// Wraps `inner`, binding a fresh position counter (starting at 0) to the
    /// given ring buffer.
    pub fn new(inner: S, ring: RingBuffer) -> (r: SampleTap<S>)
        requires
            inner.wf(),
            ring.wf(),
            inner.remaining().len() <= u64::MAX,
        ensures
            r.tap_wf(),
            r.position() == 0,
            r.ring() == ring,
            r.pending() == inner.remaining(),
            r.stream_info() == inner.info(),
    {
        SampleTap { inner, position: 0, ring }
    }

    /// The value of the position counter: samples delivered so far.
    pub fn position_index(&self) -> (r: u64)
        ensures
            r == self.position(),
    {
        self.position
    }

    /// Copies the ring buffer's current contents: the most recent pushes in
    /// push order, truncated to capacity.
    pub fn ring_snapshot(&self) -> (r: Vec<i32>)
        ensures
            r@ == self.ring()@,
            self.tap_wf() ==> r@ == recent_window(self.ring().history()),
    {
        proof {
            if self.tap_wf() {
                crate::ring::lemma_ring_keeps_recent(&self.ring);
            }
        }
        self.ring.snapshot()
    }

    /// Takes the ring buffer back out of a finished tap.
    pub fn into_ring(self) -> (r: RingBuffer)
        ensures
            r == self.ring(),
            self.tap_wf() ==> r.wf(),
    {
        self.ring
    }

    /// Pulls one sample from the inner stream. On success the position
    /// counter advances by exactly one and the sample is appended to the ring
    /// history; on exhaustion nothing changes.
    pub fn pull(&mut self) -> (r: Option<i32>)
        requires
            old(self).tap_wf(),
        ensures
            final(self).tap_wf(),
            final(self).stream_info() == old(self).stream_info(),
            old(self).pending().len() > 0 ==> {
                &&& r == Some(old(self).pending()[0])
                &&& valid_sample(old(self).pending()[0])
                &&& final(self).pending() == old(self).pending().skip(1)
                &&& final(self).position() == old(self).position() + 1
                &&& final(self).ring().history() == old(self).ring().history().push(
                    old(self).pending()[0],
                )
            },
            old(self).pending().len() == 0 ==> {
                &&& r is None
                &&& final(self).pending() == old(self).pending()
                &&& final(self).position() == old(self).position()
                &&& final(self).ring() == old(self).ring()
            },
    {
        let r = self.inner.next_sample();
        if let Some(s) = r {
            self.position = self.position + 1;
            self.ring.push_back(s);
        }
        r
    }
}

impl<S: SampleSource> SampleSource for SampleTap<S> {
    open spec fn remaining(&self) -> Seq<i32> {
        self.pending()
    }

    open spec fn info(&self) -> StreamInfo {
        self.stream_info()
    }

    open spec fn wf(&self) -> bool {
        self.tap_wf()
    }

    fn channels(&self) -> (r: u16) {
        self.inner.channels()
    }

    fn sample_rate(&self) -> (r: u32) {
        self.inner.sample_rate()
    }

    fn current_frame_len(&self) -> (r: Option<usize>) {
        self.inner.current_frame_len()
    }

    fn total_duration_seconds(&self) -> (r: Option<u64>) {
        self.inner.total_duration_seconds()
    }

    fn next_sample(&mut self) -> (r: Option<i32>) {
        self.pull()
    }
}

} // verus!
