//! Bounded recent-history storage for visualization.
//!
//! The ring keeps the `RING_CAPACITY` most recently pushed samples in arrival
//! order, evicting the oldest sample on overflow. The stored samples live in a
//! `circular_buffer::CircularBuffer`; its behaviour enters the proofs only
//! through the contracts of the small trusted wrappers below, each checked
//! against that crate's source.

use vstd::prelude::*;
use crate::valid_sample;

verus! {

/// Fixed capacity of the sample history ring.
pub const RING_CAPACITY: usize = 2048;

#[verifier::external_type_specification]
#[verifier::external_body]
#[verifier::reject_recursive_types(T)]
pub struct ExCircularBuffer<const N: usize, T>(circular_buffer::CircularBuffer<N, T>);

/// The samples a `CircularBuffer` currently holds, oldest first.
pub uninterp spec fn ring_contents(b: circular_buffer::CircularBuffer<2048, i32>) -> Seq<i32>;

/// Relies on `circular_buffer::CircularBuffer::new`: a new buffer is empty.
#[verifier::external_body]
fn raw_ring_new() -> (r: circular_buffer::CircularBuffer<2048, i32>)
    ensures
        ring_contents(r) == Seq::<i32>::empty(),
{
    circular_buffer::CircularBuffer::new()
}

/// Relies on `circular_buffer::CircularBuffer::push_back`: appends at the
/// back; when the buffer is full it overwrites the front element and returns
/// it, otherwise it returns `None`.
#[verifier::external_body]
fn raw_ring_push_back(
    b: &mut circular_buffer::CircularBuffer<2048, i32>,
    s: i32,
) -> (evicted: Option<i32>)
    ensures
        ring_contents(*old(b)).len() < RING_CAPACITY ==> {
            &&& ring_contents(*final(b)) == ring_contents(*old(b)).push(s)
            &&& evicted is None
        },
        ring_contents(*old(b)).len() >= RING_CAPACITY ==> {
            &&& ring_contents(*final(b)) == ring_contents(*old(b)).skip(1).push(s)
            &&& evicted == Some(ring_contents(*old(b))[0])
        },
{
    b.push_back(s)
}

/// Relies on `circular_buffer::CircularBuffer::to_vec`: clones the held
/// elements into a `Vec`, front (oldest) first, leaving the buffer unchanged.
#[verifier::external_body]
fn raw_ring_to_vec(b: &circular_buffer::CircularBuffer<2048, i32>) -> (r: Vec<i32>)
    ensures
        r@ == ring_contents(*b),
{
    b.to_vec()
}

/// Relies on `circular_buffer::CircularBuffer::len`: the number of held
/// elements.
#[verifier::external_body]
fn raw_ring_len(b: &circular_buffer::CircularBuffer<2048, i32>) -> (r: usize)
    ensures
        r == ring_contents(*b).len(),
{
    b.len()
}

/// The suffix of `h` that a ring of capacity `RING_CAPACITY` retains: all of
/// `h` if it fits, otherwise its last `RING_CAPACITY` elements.
pub open spec fn recent_window(h: Seq<i32>) -> Seq<i32> {
    if h.len() <= RING_CAPACITY {
        h
    } else {
        h.skip(h.len() - RING_CAPACITY)
    }
}

/// Fixed-capacity, overwrite-oldest container of interleaved samples.
///
/// Its abstract value (`@`) is the sequence of currently held samples, oldest
/// first; `history()` is the sequence of all samples ever pushed. The
/// well-formedness invariant ties the two together: the contents are always
/// exactly the most recent pushes, truncated to capacity.
pub struct RingBuffer {
    buf: circular_buffer::CircularBuffer<2048, i32>,
    history: Ghost<Seq<i32>>,
}

impl View for RingBuffer {
    type V = Seq<i32>;

    closed spec fn view(&self) -> Seq<i32> {
        ring_contents(self.buf)
    }
}

impl RingBuffer {
    /// Every sample ever pushed into this ring, oldest first.
    pub closed spec fn history(&self) -> Seq<i32> {
        self.history@
    }

    pub closed spec fn wf(&self) -> bool {
        &&& ring_contents(self.buf) == recent_window(self.history@)
        &&& forall|i: int| 0 <= i < self.history@.len() ==> valid_sample(#[trigger] self.history@[i])
    }

    /// Returns an empty ring.
    pub fn new() -> (r: RingBuffer)
        ensures
            r.wf(),
            r.history() == Seq::<i32>::empty(),
            r@ == Seq::<i32>::empty(),
    {
        RingBuffer { buf: raw_ring_new(), history: Ghost(Seq::empty()) }
    }

    /// Appends `s`, evicting the oldest sample if the ring is at capacity.
    pub fn push_back(&mut self, s: i32)
        requires
            old(self).wf(),
            valid_sample(s),
        ensures
            final(self).wf(),
            final(self).history() == old(self).history().push(s),
            final(self)@ == recent_window(old(self).history().push(s)),
    {
        let _evicted = raw_ring_push_back(&mut self.buf, s);
        proof {
            self.history@ = self.history@.push(s);
            assert(recent_window(self.history@) =~= ring_contents(self.buf));
        }
    }

    /// Copies the current contents, oldest first.
    pub fn snapshot(&self) -> (r: Vec<i32>)
        ensures
            r@ == self@,
    {
        raw_ring_to_vec(&self.buf)
    }

    /// The number of samples currently held.
    pub fn len(&self) -> (r: usize)
        ensures
            r == self@.len(),
    {
        raw_ring_len(&self.buf)
    }
}

/// The ring never holds more than `RING_CAPACITY` samples, and what it holds
/// is exactly the most recent pushes in push order: all of them while they
/// fit, and afterwards the last `RING_CAPACITY` of them.
pub proof fn lemma_ring_keeps_recent(b: &RingBuffer)
    requires
        b.wf(),
    ensures
        b@.len() <= RING_CAPACITY,
        b.history().len() <= RING_CAPACITY ==> b@ == b.history(),
        b.history().len() > RING_CAPACITY ==> b@ == b.history().skip(
            b.history().len() - RING_CAPACITY,
        ),
        forall|i: int| 0 <= i < b@.len() ==> valid_sample(#[trigger] b@[i]),
{
}

} // verus!
