//! The receive side: a buffer, sized once to the length of the input series,
//! that takes the frames the device sends back in arrival order.
use vstd::prelude::*;
use crate::frame::{decode_frame, is_sentinel, le_bytes, le_value, Frame, SENTINEL_BITS};

verus! {

/// What the link owner does after handing over a frame.
#[derive(Clone, Copy, Debug, PartialEq, Eq, Structural)]
pub enum RxAction {
    /// Read the next frame.
    Continue,
    /// Reception is over.
    Stop,
}

/// Abstract state of a receive buffer.
pub struct RxModel {
    /// Samples received so far, in arrival order.
    pub samples: Seq<u32>,
    /// The most samples the buffer will ever hold.
    pub capacity: nat,
    /// Whether the end of the stream has been seen.
    pub closed: bool,
}

/// The samples carried by a run of frames, up to the first sentinel.
pub open spec fn arrived(frames: Seq<Seq<u8>>) -> Seq<u32>
    decreases frames.len(),
{
    if frames.len() == 0 || frames[0] == le_bytes(SENTINEL_BITS) {
        Seq::empty()
    } else {
        seq![le_value(frames[0])] + arrived(frames.drop_first())
    }
}

/// `s` cut down to at most `n` elements.
pub open spec fn at_most(s: Seq<u32>, n: nat) -> Seq<u32> {
    if s.len() <= n {
        s
    } else {
        s.take(n as int)
    }
}

impl RxModel {
    pub open spec fn start(capacity: nat) -> RxModel {
        RxModel { samples: Seq::empty(), capacity, closed: false }
    }

    pub open spec fn wf(self) -> bool {
        self.samples.len() <= self.capacity
    }

    /// The state after a frame arrives.
    pub open spec fn accept(self, f: Seq<u8>) -> RxModel {
        if self.closed {
            self
        } else if f == le_bytes(SENTINEL_BITS) {
            RxModel { closed: true, ..self }
        } else if self.samples.len() >= self.capacity {
            self
        } else {
            RxModel { samples: self.samples.push(le_value(f)), ..self }
        }
    }

    /// The state after a run of frames.
    pub open spec fn accept_all(self, frames: Seq<Seq<u8>>) -> RxModel
        decreases frames.len(),
    {
        if frames.len() == 0 {
            self
        } else {
            self.accept(frames[0]).accept_all(frames.drop_first())
        }
    }
}

/// A closed buffer takes nothing more.
pub proof fn lemma_closed_is_final(m: RxModel, frames: Seq<Seq<u8>>)
    requires
        m.closed,
    ensures
        m.accept_all(frames) == m,
    decreases frames.len(),
{
    if frames.len() > 0 {
        lemma_closed_is_final(m.accept(frames[0]), frames.drop_first());
    }
}

/// An open buffer fed a run of frames ends up holding what it held, then the
/// samples that arrived before the first sentinel, in arrival order, cut at
/// its capacity.
pub proof fn lemma_accept_all(m: RxModel, frames: Seq<Seq<u8>>)
    requires
        m.wf(),
        !m.closed,
    ensures
        m.accept_all(frames).wf(),
        m.accept_all(frames).samples == at_most(m.samples + arrived(frames), m.capacity),
    decreases frames.len(),
{
    if frames.len() == 0 {
        assert(m.samples + arrived(frames) =~= m.samples);
    } else {
        let f = frames[0];
        let rest = frames.drop_first();
        let n = m.accept(f);
        if f == le_bytes(SENTINEL_BITS) {
            lemma_closed_is_final(n, rest);
            assert(m.samples + arrived(frames) =~= m.samples);
        } else {
            lemma_accept_all(n, rest);
            let v = le_value(f);
            assert(m.samples + arrived(frames) =~= m.samples.push(v) + arrived(rest));
            if m.samples.len() >= m.capacity {
                assert(at_most(m.samples + arrived(rest), m.capacity) =~= m.samples);
                assert(at_most(m.samples.push(v) + arrived(rest), m.capacity) =~= m.samples);
            }
        }
    }
}

/// Whatever the device sends, the buffer never holds more than its capacity,
/// and it holds the received samples in the order they arrived.
pub proof fn lemma_arrival_order(capacity: nat, frames: Seq<Seq<u8>>)
    ensures
        RxModel::start(capacity).accept_all(frames).samples.len() <= capacity,
        RxModel::start(capacity).accept_all(frames).samples == at_most(arrived(frames), capacity),
{
    let m = RxModel::start(capacity);
    lemma_accept_all(m, frames);
    assert(m.samples + arrived(frames) =~= arrived(frames));
}

/// The buffer of samples received from the device.
pub struct SampleBuffer {
    samples: Vec<u32>,
    capacity: usize,
    closed: bool,
}

impl View for SampleBuffer {
    type V = RxModel;

    closed spec fn view(&self) -> RxModel {
        RxModel { samples: self.samples@, capacity: self.capacity as nat, closed: self.closed }
    }
}

impl SampleBuffer {
    /// An empty buffer for a series of `capacity` samples.
    pub fn new(capacity: usize) -> (r: SampleBuffer)
        ensures
            r@ == RxModel::start(capacity as nat),
    {
        SampleBuffer { samples: Vec::with_capacity(capacity), capacity, closed: false }
    }

    /// Takes one frame from the link.
    ///
    /// The sentinel ends reception. A sample is appended while there is room;
    /// one beyond the capacity is dropped, and reading goes on until the
    /// sentinel.
    pub fn accept_frame(&mut self, f: Frame) -> (r: RxAction)
        requires
            old(self)@.wf(),
        ensures
            final(self)@.wf(),
            final(self)@ == old(self)@.accept(f@),
            r == (if final(self)@.closed { RxAction::Stop } else { RxAction::Continue }),
    {
        if self.closed {
            return RxAction::Stop;
        }
        if is_sentinel(f) {
            self.closed = true;
            return RxAction::Stop;
        }
        if self.samples.len() < self.capacity {
            let v = decode_frame(f);
            self.samples.push(v);
        }
        RxAction::Continue
    }

    /// Records that reading from the link failed: reception is over.
    pub fn read_failed(&mut self)
        ensures
            final(self)@ == (RxModel { closed: true, ..old(self)@ }),
    {
        self.closed = true;
    }

    /// Number of samples received so far.
    pub fn len(&self) -> (r: usize)
        ensures
            r == self@.samples.len(),
    {
        self.samples.len()
    }

    /// The most samples the buffer will hold.
    pub fn capacity(&self) -> (r: usize)
        ensures
            r == self@.capacity,
    {
        self.capacity
    }

    /// Whether reception is over.
    pub fn is_closed(&self) -> (r: bool)
        ensures
            r == self@.closed,
    {
        self.closed
    }

    /// A copy of the samples received so far, in arrival order.
    pub fn snapshot(&self) -> (r: Vec<u32>)
        ensures
            r@ == self@.samples,
    {
        let mut r: Vec<u32> = Vec::with_capacity(self.samples.len());
        let mut i: usize = 0;
        while i < self.samples.len()
            invariant
                i <= self.samples.len(),
                r@ == self.samples@.take(i as int),
            decreases self.samples.len() - i,
        {
            r.push(self.samples[i]);
            i = i + 1;
            assert(r@ =~= self.samples@.take(i as int));
        }
        assert(r@ =~= self.samples@);
        r
    }
}

} // verus!
