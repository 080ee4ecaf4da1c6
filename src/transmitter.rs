//! The host's transmitting side: sends every input sample in order, stops early
//! on cancellation or on a failed write, and always ends with one sentinel.
//!
//! The transmitter is a state machine; whoever owns the link asks it for the
//! next frame, writes that frame, and reports a failed write back.
use vstd::prelude::*;
use crate::frame::{encode_frame, le_bytes, sentinel_frame, Frame, SENTINEL_BITS};

verus! {

/// Where the transmitter stands.
#[derive(Clone, Copy, Debug, PartialEq, Eq, Structural)]
pub enum TxPhase {
    /// Samples are still being sent.
    Sending,
    /// A write failed: only the sentinel is left to send.
    Draining,
    /// The sentinel has been handed out; nothing more will be sent.
    Done,
}

/// What the link owner must do next.
#[derive(Clone, Copy, Debug, PartialEq, Eq)]
pub enum TxAction {
    /// Write this sample frame.
    Payload(Frame),
    /// Write this end-of-transmission frame; the outcome does not matter.
    Sentinel(Frame),
    /// Stop: the transmission is over.
    Halt,
}

/// One unit put on the wire, as a value.
pub enum Sent {
    Payload(u32),
    Sentinel,
}

/// What the transmitter learns from the outside between two frames.
pub enum TxEvent {
    /// A request for the next frame, with the state of the cancellation flag.
    Poll(bool),
    /// The last sample write failed.
    WriteFailed,
}

/// The payload units for a run of samples, in order.
pub open spec fn payloads(s: Seq<u32>) -> Seq<Sent> {
    s.map_values(|x: u32| Sent::Payload(x))
}

/// Number of polls in a sequence of events.
pub open spec fn polls(events: Seq<TxEvent>) -> nat
    decreases events.len(),
{
    if events.len() == 0 {
        0
    } else {
        (if events[0] is Poll { 1nat } else { 0nat }) + polls(events.drop_first())
    }
}

/// Abstract state of a transmitter.
pub struct TxModel {
    pub samples: Seq<u32>,
    /// How many samples have been handed out.
    pub sent: nat,
    pub phase: TxPhase,
}

impl TxModel {
    pub open spec fn start(samples: Seq<u32>) -> TxModel {
        TxModel { samples, sent: 0, phase: TxPhase::Sending }
    }

    pub open spec fn wf(self) -> bool {
        self.sent <= self.samples.len()
    }

    /// Everything handed out so far, in order.
    pub open spec fn frames(self) -> Seq<Sent> {
        let p = payloads(self.samples.take(self.sent as int));
        if self.phase == TxPhase::Done {
            p.push(Sent::Sentinel)
        } else {
            p
        }
    }

    /// The unit handed out by a poll.
    pub open spec fn emitted(self, cancelled: bool) -> Option<Sent> {
        match self.phase {
            TxPhase::Sending => if cancelled || self.sent >= self.samples.len() {
                Some(Sent::Sentinel)
            } else {
                Some(Sent::Payload(self.samples[self.sent as int]))
            },
            TxPhase::Draining => Some(Sent::Sentinel),
            TxPhase::Done => None,
        }
    }

    /// The state after a poll.
    pub open spec fn polled(self, cancelled: bool) -> TxModel {
        match self.emitted(cancelled) {
            Some(Sent::Payload(_)) => TxModel { sent: self.sent + 1, ..self },
            Some(Sent::Sentinel) => TxModel { phase: TxPhase::Done, ..self },
            None => self,
        }
    }

    /// The state after a failed sample write.
    pub open spec fn failed(self) -> TxModel {
        if self.phase == TxPhase::Sending {
            TxModel { phase: TxPhase::Draining, ..self }
        } else {
            self
        }
    }

    pub open spec fn step(self, e: TxEvent) -> TxModel {
        match e {
            TxEvent::Poll(c) => self.polled(c),
            TxEvent::WriteFailed => self.failed(),
        }
    }

    /// What one event puts on the wire.
    pub open spec fn step_output(self, e: TxEvent) -> Seq<Sent> {
        match e {
            TxEvent::Poll(c) => match self.emitted(c) {
                Some(u) => seq![u],
                None => Seq::empty(),
            },
            TxEvent::WriteFailed => Seq::empty(),
        }
    }

    pub open spec fn run(self, events: Seq<TxEvent>) -> TxModel
        decreases events.len(),
    {
        if events.len() == 0 {
            self
        } else {
            self.step(events[0]).run(events.drop_first())
        }
    }

    /// Everything put on the wire over a sequence of events, in order.
    pub open spec fn output(self, events: Seq<TxEvent>) -> Seq<Sent>
        decreases events.len(),
    {
        if events.len() == 0 {
            Seq::empty()
        } else {
            self.step_output(events[0]) + self.step(events[0]).output(events.drop_first())
        }
    }

    /// Polls that may still hand something out.
    pub open spec fn remaining(self) -> nat {
        match self.phase {
            TxPhase::Sending => (self.samples.len() - self.sent) as nat + 1,
            TxPhase::Draining => 1,
            TxPhase::Done => 0,
        }
    }
}

/// What a step hands out is exactly what it adds to the record of frames.
pub proof fn lemma_step_frames(m: TxModel, e: TxEvent)
    requires
        m.wf(),
    ensures
        m.step(e).wf(),
        m.step(e).frames() == m.frames() + m.step_output(e),
        m.step(e).remaining() + (if e is Poll && m.remaining() > 0 { 1nat } else { 0nat })
            <= m.remaining(),
{
    let n = m.step(e);
    match e {
        TxEvent::Poll(c) => {
            match m.emitted(c) {
                Some(Sent::Payload(v)) => {
                    assert(m.samples.take(m.sent + 1int) =~= m.samples.take(m.sent as int).push(v));
                    assert(payloads(m.samples.take(m.sent + 1int)) =~= payloads(
                        m.samples.take(m.sent as int),
                    ).push(Sent::Payload(v)));
                },
                _ => {},
            }
            assert(n.frames() =~= m.frames() + m.step_output(e));
        },
        TxEvent::WriteFailed => {
            assert(n.frames() =~= m.frames() + m.step_output(e));
        },
    }
}

/// Over any run, the record of frames grows by exactly what was put on the wire.
pub proof fn lemma_run_frames(m: TxModel, events: Seq<TxEvent>)
    requires
        m.wf(),
    ensures
        m.run(events).wf(),
        m.run(events).frames() == m.frames() + m.output(events),
        polls(events) >= m.remaining() ==> m.run(events).phase == TxPhase::Done,
    decreases events.len(),
{
    if events.len() > 0 {
        let e = events[0];
        let rest = events.drop_first();
        lemma_step_frames(m, e);
        lemma_run_frames(m.step(e), rest);
        assert(m.frames() + m.output(events) =~= m.frames() + m.step_output(e) + m.step(
            e,
        ).output(rest));
        if polls(events) >= m.remaining() && m.remaining() == 0 {
            lemma_done_is_final(m, events);
        }
    }
}

/// Once the sentinel is out, nothing is ever sent again.
pub proof fn lemma_done_is_final(m: TxModel, events: Seq<TxEvent>)
    requires
        m.phase == TxPhase::Done,
    ensures
        m.run(events) == m,
        m.output(events) == Seq::<Sent>::empty(),
    decreases events.len(),
{
    if events.len() > 0 {
        lemma_done_is_final(m.step(events[0]), events.drop_first());
        assert(m.output(events) =~= Seq::<Sent>::empty());
    }
}

/// Whatever the cancellation timing and whichever writes fail, a transmitter
/// puts on the wire a prefix of its samples, in order, followed by at most one
/// sentinel; once it has been polled more times than it has samples, that
/// sentinel has been sent exactly once.
pub proof fn lemma_transmission_shape(samples: Seq<u32>, events: Seq<TxEvent>)
    ensures
        ({
            let out = TxModel::start(samples).output(events);
            let k = TxModel::start(samples).run(events).sent;
            &&& k <= samples.len()
            &&& out == payloads(samples.take(k as int)) || out == payloads(
                samples.take(k as int),
            ).push(Sent::Sentinel)
            &&& polls(events) > samples.len() ==> out == payloads(samples.take(k as int)).push(
                Sent::Sentinel,
            )
        }),
{
    let m = TxModel::start(samples);
    lemma_run_frames(m, events);
    assert(samples.take(0) =~= Seq::<u32>::empty());
    assert(payloads(samples.take(0)) =~= Seq::<Sent>::empty());
    assert(m.frames() =~= Seq::<Sent>::empty());
    assert(m.output(events) =~= m.frames() + m.output(events));
    let r = m.run(events);
    assert(r.samples == samples) by {
        lemma_run_keeps_samples(m, events);
    }
}

/// The samples of a transmitter never change.
pub proof fn lemma_run_keeps_samples(m: TxModel, events: Seq<TxEvent>)
    ensures
        m.run(events).samples == m.samples,
    decreases events.len(),
{
    if events.len() > 0 {
        lemma_run_keeps_samples(m.step(events[0]), events.drop_first());
    }
}

/// A transmitter cancelled before it checks the flag once sends no sample and
/// exactly one sentinel, whatever happens afterwards.
pub proof fn lemma_cancelled_at_start(samples: Seq<u32>, later: Seq<TxEvent>)
    ensures
        TxModel::start(samples).output(seq![TxEvent::Poll(true)] + later) == seq![Sent::Sentinel],
{
    let m = TxModel::start(samples);
    let events = seq![TxEvent::Poll(true)] + later;
    assert(events[0] == TxEvent::Poll(true));
    assert(events.drop_first() =~= later);
    lemma_done_is_final(m.step(TxEvent::Poll(true)), later);
    assert(m.output(events) =~= seq![Sent::Sentinel]);
}

/// The transmitting side of a session.
pub struct Transmitter {
    samples: Vec<u32>,
    sent: usize,
    phase: TxPhase,
}

impl View for Transmitter {
    type V = TxModel;

    closed spec fn view(&self) -> TxModel {
        TxModel { samples: self.samples@, sent: self.sent as nat, phase: self.phase }
    }
}

/// Whether an action is the one the model hands out.
pub open spec fn action_matches(a: TxAction, e: Option<Sent>) -> bool {
    match e {
        Some(Sent::Payload(v)) => a matches TxAction::Payload(f) && f@ == le_bytes(v),
        Some(Sent::Sentinel) => a matches TxAction::Sentinel(f) && f@ == le_bytes(SENTINEL_BITS),
        None => a is Halt,
    }
}

impl Transmitter {
    /// A transmitter that will send `samples` in order.
    pub fn new(samples: Vec<u32>) -> (r: Transmitter)
        ensures
            r@ == TxModel::start(samples@),
    {
        Transmitter { samples, sent: 0, phase: TxPhase::Sending }
    }

    /// The next frame to write, given whether cancellation has been requested.
    ///
    /// The flag is consulted only before a sample: a sentinel owed after a
    /// failed write is handed out whatever its value.
    pub fn next_action(&mut self, cancelled: bool) -> (r: TxAction)
        requires
            old(self)@.wf(),
        ensures
            final(self)@.wf(),
            final(self)@ == old(self)@.polled(cancelled),
            action_matches(r, old(self)@.emitted(cancelled)),
    {
        match self.phase {
            TxPhase::Sending => {
                if cancelled || self.sent >= self.samples.len() {
                    self.phase = TxPhase::Done;
                    TxAction::Sentinel(sentinel_frame())
                } else {
                    let f = encode_frame(self.samples[self.sent]);
                    self.sent = self.sent + 1;
                    TxAction::Payload(f)
                }
            },
            TxPhase::Draining => {
                self.phase = TxPhase::Done;
                TxAction::Sentinel(sentinel_frame())
            },
            TxPhase::Done => TxAction::Halt,
        }
    }

    /// Whether the next poll consults the cancellation flag: only before a
    /// sample is sent. Otherwise the flag has no effect on the poll.
    pub fn needs_flag(&self) -> (r: bool)
        requires
            self@.wf(),
        ensures
            r == (self@.phase == TxPhase::Sending && self@.sent < self@.samples.len()),
            !r ==> self@.emitted(true) == self@.emitted(false) && self@.polled(true)
                == self@.polled(false),
    {
        self.phase == TxPhase::Sending && self.sent < self.samples.len()
    }

    /// Records that the last sample write failed: the remaining samples are
    /// abandoned and only the sentinel is left.
    pub fn write_failed(&mut self)
        requires
            old(self)@.wf(),
        ensures
            final(self)@.wf(),
            final(self)@ == old(self)@.failed(),
    {
        if self.phase == TxPhase::Sending {
            self.phase = TxPhase::Draining;
        }
    }

    /// Whether the transmission is over.
    pub fn is_done(&self) -> (r: bool)
        ensures
            r == (self@.phase == TxPhase::Done),
    {
        self.phase == TxPhase::Done
    }

    /// How many samples have been handed out.
    pub fn sent(&self) -> (r: usize)
        ensures
            r == self@.sent,
    {
        self.sent
    }
}

} // verus!
