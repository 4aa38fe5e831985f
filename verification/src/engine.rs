//! Playback transport control and the device-facing sample path.
//!
//! `AudioEngine` owns at most one live playback session: a decoded track
//! wrapped in a `SampleTap` that counts and republishes every sample the
//! device pulls. Opening and decoding files, and the device connection
//! itself, are I/O and live with the caller; the engine receives the decode
//! outcome as a plain value and makes every transport decision here, where it
//! is verified.

use vstd::prelude::*;
use vstd::arithmetic::mul::lemma_mul_basics;
use crate::valid_sample;
use crate::ring::RingBuffer;
use crate::source::{MemorySource, SampleTap, StreamInfo};

verus! {

/// One volume unit: the fixed-point value standing for full level 1.0.
pub const VOLUME_SCALE: i32 = 1024;

/// Why a load failed. The file could not be opened, or its content is not a
/// supported, well-formed audio stream.
#[derive(Clone, Copy, PartialEq, Eq, Structural, Debug)]
pub enum LoadError {
    IoError,
    DecodeError,
}

/// A track as the library collaborator hands it over, read-only.
#[derive(Clone, Debug)]
pub struct Track {
    pub name: String,
    pub path: String,
    pub title: String,
    pub artist: String,
    pub album: String,
    pub duration_seconds: u64,
}

impl Track {
    /// Assembles a track from raw tag fields, replacing each absent tag with
    /// an empty string.
    pub fn from_metadata(
        name: String,
        path: String,
        title: Option<String>,
        artist: Option<String>,
        album: Option<String>,
        duration_seconds: u64,
    ) -> (r: Track)
        ensures
            r.name == name,
            r.path == path,
            title is Some ==> r.title == title.unwrap(),
            title is None ==> r.title@ == Seq::<char>::empty(),
            artist is Some ==> r.artist == artist.unwrap(),
            artist is None ==> r.artist@ == Seq::<char>::empty(),
            album is Some ==> r.album == album.unwrap(),
            album is None ==> r.album@ == Seq::<char>::empty(),
            r.duration_seconds == duration_seconds,
    {
        let title = match title {
            Some(t) => t,
            None => String::new(),
        };
        let artist = match artist {
            Some(a) => a,
            None => String::new(),
        };
        let album = match album {
            Some(a) => a,
            None => String::new(),
        };
        Track { name, path, title, artist, album, duration_seconds }
    }
}

/// A fully decoded audio stream as plain values: interleaved fixed-point
/// samples plus the metadata the decoder reported.
pub struct DecodedAudio {
    pub samples: Vec<i32>,
    pub channels: u16,
    pub sample_rate: u32,
    pub duration_seconds: Option<u64>,
}

impl DecodedAudio {
    pub open spec fn wf(&self) -> bool {
        forall|i: int| 0 <= i < self.samples@.len() ==> valid_sample(#[trigger] self.samples@[i])
    }
}

/// `s` attenuated by `volume`, where `VOLUME_SCALE` is full level. Division
/// truncates toward zero, so silence is exact and full level is the identity.
pub open spec fn scaled_sample(s: i32, volume: i32) -> int {
    if s >= 0 {
        s * volume / (VOLUME_SCALE as int)
    } else {
        -((-s) * volume / (VOLUME_SCALE as int))
    }
}

/// How one device pull relates the engine's state before and after, and the
/// sample it delivers: during uninterrupted playback the pending head is
/// delivered at the current volume, the position counter advances by exactly
/// one and the raw sample enters the ring history; an exhausted session is
/// retired with the ring contents kept; otherwise nothing happens.
pub open spec fn pull_step(pre: AudioEngine, post: AudioEngine, out: Option<i32>) -> bool {
    if pre.has_session() && !pre.spec_paused() && pre.pending().len() > 0 {
        &&& out == Some(scaled_sample(pre.pending()[0], pre.spec_volume()) as i32)
        &&& post.has_session()
        &&& post.position() == pre.position() + 1
        &&& post.pending() == pre.pending().skip(1)
        &&& post.ring().history() == pre.ring().history().push(pre.pending()[0])
        &&& post.spec_paused() == pre.spec_paused()
        &&& post.spec_volume() == pre.spec_volume()
    } else if pre.has_session() && !pre.spec_paused() {
        &&& out is None
        &&& !post.has_session()
        &&& post.position() == 0
        &&& post.ring() == pre.ring()
        &&& post.spec_paused() == pre.spec_paused()
        &&& post.spec_volume() == pre.spec_volume()
    } else {
        &&& out is None
        &&& post == pre
    }
}

/// Owner of the playback session and transport state.
///
/// At most one session is live; it holds the tap, whose ring buffer survives
/// session changes so the visualizer keeps seeing the most recent samples.
pub struct AudioEngine {
    session: Option<SampleTap<MemorySource>>,
    spare_ring: Option<RingBuffer>,
    paused: bool,
    volume: i32,
}

impl AudioEngine {
    /// Whether a session is queued on the device path.
    pub closed spec fn has_session(&self) -> bool {
        self.session is Some
    }

    pub closed spec fn spec_paused(&self) -> bool {
        self.paused
    }

    pub closed spec fn spec_volume(&self) -> i32 {
        self.volume
    }

    /// Samples delivered since the current session began; 0 with no session.
    pub closed spec fn position(&self) -> u64 {
        match self.session {
            Some(tap) => tap.position(),
            None => 0,
        }
    }

    /// The samples the current session has yet to deliver.
    pub closed spec fn pending(&self) -> Seq<i32> {
        match self.session {
            Some(tap) => tap.pending(),
            None => Seq::empty(),
        }
    }

    /// The current session's stream metadata; arbitrary with no session.
    pub closed spec fn stream_info(&self) -> StreamInfo {
        match self.session {
            Some(tap) => tap.stream_info(),
            None => arbitrary(),
        }
    }

    /// The ring buffer the visualizer reads, whichever side holds it.
    pub closed spec fn ring(&self) -> RingBuffer {
        match self.session {
            Some(tap) => tap.ring(),
            None => self.spare_ring->Some_0,
        }
    }

    pub closed spec fn wf(&self) -> bool {
        &&& (self.session is Some) <==> (self.spare_ring is None)
        &&& match self.session {
            Some(tap) => tap.tap_wf(),
            None => true,
        }
        &&& match self.spare_ring {
            Some(ring) => ring.wf(),
            None => true,
        }
        &&& 0 <= self.volume <= VOLUME_SCALE
    }

    /// A fresh engine: no session, full volume, an empty ring.
    pub fn new() -> (r: AudioEngine)
        ensures
            r.wf(),
            !r.has_session(),
            !r.spec_paused(),
            r.spec_volume() == VOLUME_SCALE,
            r.position() == 0,
            r.ring().history() == Seq::<i32>::empty(),
    {
        AudioEngine {
            session: None,
            spare_ring: Some(RingBuffer::new()),
            paused: false,
            volume: VOLUME_SCALE,
        }
    }

    /// Installs the outcome of opening and decoding a track.
    ///
    /// On a successful decode the prior session (if any) is discarded, the
    /// new stream is wrapped in a tap bound to a fresh position counter and
    /// the existing ring buffer, and playback starts. On failure the error is
    /// surfaced and the engine, including any playing session, is untouched.
    pub fn load(&mut self, decoded: Result<DecodedAudio, LoadError>) -> (r: Result<(), LoadError>)
        requires
            old(self).wf(),
            decoded is Ok ==> decoded->Ok_0.wf(),
        ensures
            final(self).wf(),
            decoded is Err ==> {
                &&& r == Err::<(), LoadError>(decoded->Err_0)
                &&& *final(self) == *old(self)
            },
            decoded is Ok ==> {
                &&& r == Ok::<(), LoadError>(())
                &&& final(self).has_session()
                &&& final(self).position() == 0
                &&& final(self).pending() == decoded->Ok_0.samples@
                &&& final(self).ring().history() == old(self).ring().history()
                &&& !final(self).spec_paused()
                &&& final(self).spec_volume() == old(self).spec_volume()
                &&& final(self).stream_info() == (StreamInfo {
                    channels: decoded->Ok_0.channels,
                    sample_rate: decoded->Ok_0.sample_rate,
                    frame_len: None,
                    duration_seconds: decoded->Ok_0.duration_seconds,
                })
            },
    {
        match decoded {
            Err(e) => Err(e),
            Ok(audio) => {
                let ring = match self.session.take() {
                    Some(tap) => tap.into_ring(),
                    None => self.spare_ring.take().unwrap(),
                };
                // The tap's position counter must accommodate the whole
                // stream; a sample count is a usize, so it fits in u64.
                let sample_count: usize = audio.samples.len();
                proof {
                    assert(sample_count <= u64::MAX);
                }
                let src = MemorySource::new(
                    audio.samples,
                    audio.channels,
                    audio.sample_rate,
                    audio.duration_seconds,
                );
                self.session = Some(SampleTap::new(src, ring));
                self.spare_ring = None;
                self.paused = false;
                Ok(())
            },
        }
    }

    /// Starts or resumes playback of the queued session.
    pub fn play(&mut self)
        requires
            old(self).wf(),
        ensures
            final(self).wf(),
            !final(self).spec_paused(),
            final(self).has_session() == old(self).has_session(),
            final(self).position() == old(self).position(),
            final(self).pending() == old(self).pending(),
            final(self).ring() == old(self).ring(),
            final(self).spec_volume() == old(self).spec_volume(),
    {
        self.paused = false;
    }

    /// Resumes playback; the same immediate effect as `play`.
    pub fn resume(&mut self)
        requires
            old(self).wf(),
        ensures
            final(self).wf(),
            !final(self).spec_paused(),
            final(self).has_session() == old(self).has_session(),
            final(self).position() == old(self).position(),
            final(self).pending() == old(self).pending(),
            final(self).ring() == old(self).ring(),
            final(self).spec_volume() == old(self).spec_volume(),
    {
        self.paused = false;
    }

    /// Pauses playback; the session stays queued.
    pub fn pause(&mut self)
        requires
            old(self).wf(),
        ensures
            final(self).wf(),
            final(self).spec_paused(),
            final(self).has_session() == old(self).has_session(),
            final(self).position() == old(self).position(),
            final(self).pending() == old(self).pending(),
            final(self).ring() == old(self).ring(),
            final(self).spec_volume() == old(self).spec_volume(),
    {
        self.paused = true;
    }

    /// Clears the device queue immediately. The ring buffer contents are
    /// deliberately kept: the visualizer sees stale data only until new
    /// pushes overwrite it.
    pub fn stop(&mut self)
        requires
            old(self).wf(),
        ensures
            final(self).wf(),
            !final(self).has_session(),
            final(self).position() == 0,
            final(self).pending() == Seq::<i32>::empty(),
            final(self).ring() == old(self).ring(),
            final(self).spec_paused() == old(self).spec_paused(),
            final(self).spec_volume() == old(self).spec_volume(),
    {
        if let Some(tap) = self.session.take() {
            self.spare_ring = Some(tap.into_ring());
        }
    }

    /// Sets the playback volume, clamping to `[0, VOLUME_SCALE]`.
    pub fn set_volume(&mut self, v: i32)
        requires
            old(self).wf(),
        ensures
            final(self).wf(),
            final(self).spec_volume() == (if v < 0 {
                0
            } else if v > VOLUME_SCALE {
                VOLUME_SCALE as int
            } else {
                v as int
            }),
            final(self).has_session() == old(self).has_session(),
            final(self).position() == old(self).position(),
            final(self).pending() == old(self).pending(),
            final(self).ring() == old(self).ring(),
            final(self).spec_paused() == old(self).spec_paused(),
    {
        self.volume = if v < 0 {
            0
        } else if v > VOLUME_SCALE {
            VOLUME_SCALE
        } else {
            v
        };
    }

    /// Whether no session is queued.
    pub fn is_empty(&self) -> (r: bool)
        ensures
            r == !self.has_session(),
    {
        self.session.is_none()
    }

    pub fn is_paused(&self) -> (r: bool)
        ensures
            r == self.spec_paused(),
    {
        self.paused
    }

    /// The approximate playback position: samples delivered since the
    /// current session began.
    pub fn position_index(&self) -> (r: u64)
        requires
            self.wf(),
        ensures
            r == self.position(),
    {
        match &self.session {
            Some(tap) => tap.position_index(),
            None => 0u64,
        }
    }

    /// Copies the ring buffer's current contents for the visualizer: the
    /// most recent pushes in push order, truncated to capacity.
    pub fn ring_buffer_snapshot(&self) -> (r: Vec<i32>)
        requires
            self.wf(),
        ensures
            r@ == self.ring()@,
            r@ == crate::ring::recent_window(self.ring().history()),
    {
        proof {
            if self.spare_ring is Some {
                crate::ring::lemma_ring_keeps_recent(&self.spare_ring->0);
            }
        }
        match (&self.session, &self.spare_ring) {
            (Some(tap), _) => tap.ring_snapshot(),
            (None, Some(ring)) => ring.snapshot(),
            (None, None) => vstd::pervasive::unreached(),
        }
    }

    /// The device-facing pull: delivers the next sample of an unpaused
    /// session at the current volume, recording the raw sample on the way
    /// through; retires the session once its stream is exhausted.
    pub fn next_device_sample(&mut self) -> (r: Option<i32>)
        requires
            old(self).wf(),
        ensures
            final(self).wf(),
            pull_step(*old(self), *final(self), r),
            r matches Some(s) ==> valid_sample(s),
            old(self).spec_volume() == 0 ==> (r is None || r == Some(0i32)),
    {
        if self.paused {
            return None;
        }
        let pulled = match &mut self.session {
            None => {
                return None;
            },
            Some(tap) => tap.pull(),
        };
        match pulled {
            Some(s) => Some(apply_volume(s, self.volume)),
            None => {
                let tap = self.session.take().unwrap();
                self.spare_ring = Some(tap.into_ring());
                None
            },
        }
    }
}

/// The position counter counts delivered samples one for one: over any chain
/// of device pulls that all deliver a sample — uninterrupted playback — it
/// increases by exactly the number of pulls. (It resets to 0 when a new
/// session starts: see `load`.)
pub proof fn lemma_position_counts_pulls(states: Seq<AudioEngine>, outs: Seq<Option<i32>>)
    requires
        states.len() == outs.len() + 1,
        forall|i: int|
            0 <= i < outs.len() ==> pull_step(#[trigger] states[i], states[i + 1], outs[i]),
        forall|i: int| 0 <= i < outs.len() ==> (#[trigger] outs[i]) is Some,
    ensures
        states.last().position() == states[0].position() + outs.len(),
    decreases outs.len(),
{
    if outs.len() > 0 {
        let n = outs.len() as int;
        lemma_position_counts_pulls(states.drop_last(), outs.drop_last());
        assert(states.drop_last().last() == states[n - 1]);
        assert(pull_step(states[n - 1], states[n], outs[n - 1]));
    }
}

/// While the volume stands at zero, the device path delivers exact silence:
/// over any chain of pulls starting at volume 0, every delivered sample is
/// 0.
pub proof fn lemma_zero_volume_silence(states: Seq<AudioEngine>, outs: Seq<Option<i32>>)
    requires
        states.len() == outs.len() + 1,
        forall|i: int|
            0 <= i < outs.len() ==> pull_step(#[trigger] states[i], states[i + 1], outs[i]),
        states[0].spec_volume() == 0,
    ensures
        forall|i: int| 0 <= i < outs.len() ==> (#[trigger] outs[i]) is None || outs[i]
            == Some(0i32),
        forall|i: int| 0 <= i < states.len() ==> (#[trigger] states[i]).spec_volume() == 0,
    decreases outs.len(),
{
    if outs.len() > 0 {
        assert(pull_step(states[0], states[1], outs[0]));
        assert(states[1].spec_volume() == 0);
        if states[0].has_session() && !states[0].spec_paused() && states[0].pending().len() > 0 {
            let s0 = states[0].pending()[0];
            lemma_mul_basics(if s0 >= 0 { s0 as int } else { -(s0 as int) });
            assert(scaled_sample(s0, 0) == 0);
        }
        lemma_zero_volume_silence(states.skip(1), outs.skip(1));
        assert(forall|i: int|
            0 <= i < outs.skip(1).len() ==> (#[trigger] outs.skip(1)[i]) is None || outs.skip(1)[i]
                == Some(0i32));
        assert(forall|i: int| 1 <= i < outs.len() ==> outs[i] == outs.skip(1)[i - 1]);
        assert(forall|i: int| 1 <= i < states.len() ==> states[i] == states.skip(1)[i - 1]);
    }
}

/// Attenuates sample `s` by `volume`; exact silence at 0, identity at full
/// level, and never louder than the raw sample.
pub fn apply_volume(s: i32, volume: i32) -> (r: i32)
    requires
        valid_sample(s),
        0 <= volume <= VOLUME_SCALE,
    ensures
        r == scaled_sample(s, volume),
        valid_sample(r),
        volume == 0 ==> r == 0,
        volume == VOLUME_SCALE ==> r == s,
{
    let mag: u32 = if s >= 0 {
        s as u32
    } else {
        (-s) as u32
    };
    proof {
        assert((mag as int) * (volume as int) <= 33554432 && 0 <= (mag as int) * (volume as int))
            by (nonlinear_arith)
            requires
                0 <= mag <= 32768,
                0 <= volume <= 1024,
        ;
    }
    let prod: u32 = mag * (volume as u32);
    let q: u32 = prod / (VOLUME_SCALE as u32);
    proof {
        assert(q <= mag && (volume == 0 ==> q == 0) && (volume == 1024 ==> q == mag))
            by (nonlinear_arith)
            requires
                0 <= mag <= 32768,
                0 <= volume <= 1024,
                prod == (mag as int) * (volume as int),
                q == (prod as int) / 1024,
        ;
    }
    if s >= 0 {
        q as i32
    } else {
        -(q as i32)
    }
}

} // verus!
