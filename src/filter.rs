//! A streaming session with one device: connection, the worker pair's
//! lifetime, and when the session may end or be exported.
//!
//! The session decides; the caller performs what each decision asks for
//! (spawning the workers, raising the cancellation flag, joining the workers).
use vstd::prelude::*;
use crate::graph::{self, mode_wf, ExportRecord, Graph};
use crate::receiver::{RxModel, SampleBuffer};

verus! {

/// Where a session stands.
#[derive(Clone, Copy, Debug, PartialEq, Eq, Structural)]
pub enum Phase {
    /// Waiting for the handshake.
    Connecting,
    /// Connected, both workers running.
    Streaming,
    /// Connected, both workers joined.
    Drained,
    /// The handshake failed.
    Errored,
    /// The user ended the session.
    Closed,
}

/// Events of a session.
pub enum Message {
    /// The link could not be opened, or the handshake failed or timed out.
    ConnectionFailed,
    /// The handshake succeeded and the input series has been generated.
    ConnectionEstablished { input: Vec<u32> },
    /// A user action on the viewer.
    Graph(graph::Message),
    /// A refresh tick, with whether the receiving worker has finished.
    Refresh { receiver_finished: bool },
    /// The user ends the session.
    Finish,
}

/// What the caller must do after an event.
#[derive(Clone, Copy, Debug, PartialEq, Eq, Structural)]
pub enum Action {
    /// Nothing.
    Nothing,
    /// Start the transmitting and the receiving worker.
    SpawnWorkers,
    /// Join both workers; they are done or about to be.
    JoinWorkers,
    /// Raise the cancellation flag, join both workers, then leave the session.
    CancelJoinAndLeave,
    /// Leave the session; there is no worker to join.
    Leave,
}

/// The phase after an event.
pub open spec fn next_phase(p: Phase, m: Message) -> Phase {
    match (p, m) {
        (Phase::Connecting, Message::ConnectionFailed) => Phase::Errored,
        (Phase::Connecting, Message::ConnectionEstablished { .. }) => Phase::Streaming,
        (Phase::Streaming, Message::Refresh { receiver_finished: true }) => Phase::Drained,
        (Phase::Connecting, Message::Finish) => Phase::Connecting,
        (Phase::Errored, Message::Finish) => Phase::Errored,
        (_, Message::Finish) => Phase::Closed,
        _ => p,
    }
}

/// Whether a phase takes an event: the handshake's outcome only while
/// connecting, viewer actions and refresh ticks only while connected, and the
/// user's ending of the session in every phase after connecting.
pub open spec fn accepts(p: Phase, m: Message) -> bool {
    match m {
        Message::ConnectionFailed | Message::ConnectionEstablished { .. } => p == Phase::Connecting,
        Message::Graph(_) | Message::Refresh { .. } => p == Phase::Streaming || p == Phase::Drained,
        Message::Finish => p != Phase::Connecting,
    }
}

/// The action asked for by an event.
pub open spec fn action_for(p: Phase, m: Message) -> Action {
    match (p, m) {
        (Phase::Connecting, Message::ConnectionEstablished { .. }) => Action::SpawnWorkers,
        (Phase::Streaming, Message::Refresh { receiver_finished: true }) => Action::JoinWorkers,
        (Phase::Streaming, Message::Finish) => Action::CancelJoinAndLeave,
        (Phase::Connecting, Message::Finish) => Action::Nothing,
        (_, Message::Finish) => Action::Leave,
        _ => Action::Nothing,
    }
}

/// The viewer's mode and input series after an event.
pub open spec fn next_viewer(v: Option<(graph::Mode, Seq<u32>)>, p: Phase, m: Message) -> Option<
    (graph::Mode, Seq<u32>),
> {
    match m {
        Message::ConnectionEstablished { input } => if p == Phase::Connecting {
            Some((graph::Mode::Streaming, input@))
        } else {
            v
        },
        Message::Graph(gm) => match v {
            Some((mode, series)) => Some((graph::mode_after(mode, gm), series)),
            None => None,
        },
        Message::Finish => if p == Phase::Connecting {
            v
        } else {
            None
        },
        _ => v,
    }
}

/// Whether an action joins the workers.
pub open spec fn joins(a: Action) -> bool {
    a == Action::JoinWorkers || a == Action::CancelJoinAndLeave
}

/// The phase after a run of events.
pub open spec fn run(p: Phase, ms: Seq<Message>) -> Phase
    decreases ms.len(),
{
    if ms.len() == 0 {
        p
    } else {
        run(next_phase(p, ms[0]), ms.drop_first())
    }
}

/// The actions asked for over a run of events, in order.
pub open spec fn actions(p: Phase, ms: Seq<Message>) -> Seq<Action>
    decreases ms.len(),
{
    if ms.len() == 0 {
        Seq::empty()
    } else {
        seq![action_for(p, ms[0])] + actions(next_phase(p, ms[0]), ms.drop_first())
    }
}

/// Whether worker handles exist in a phase.
pub open spec fn workers_live(p: Phase) -> bool {
    p == Phase::Streaming
}

/// Outside a connecting session no event ever starts workers.
pub proof fn lemma_no_spawn_after_connecting(p: Phase, ms: Seq<Message>)
    requires
        p != Phase::Connecting,
    ensures
        run(p, ms) != Phase::Connecting,
        forall|i: int| 0 <= i < actions(p, ms).len() ==> actions(p, ms)[i] != Action::SpawnWorkers,
    decreases ms.len(),
{
    if ms.len() > 0 {
        let q = next_phase(p, ms[0]);
        lemma_no_spawn_after_connecting(q, ms.drop_first());
        let a = actions(p, ms);
        assert forall|i: int| 0 <= i < a.len() implies a[i] != Action::SpawnWorkers by {
            if i > 0 {
                assert(a[i] == actions(q, ms.drop_first())[i - 1]);
            }
        }
    }
}

/// A failed handshake leaves the session errored, and no event afterwards
/// ever starts the workers.
pub proof fn lemma_failed_handshake(later: Seq<Message>)
    ensures
        next_phase(Phase::Connecting, Message::ConnectionFailed) == Phase::Errored,
        ({
            let ms = seq![Message::ConnectionFailed] + later;
            forall|i: int|
                0 <= i < actions(Phase::Connecting, ms).len() ==> actions(Phase::Connecting, ms)[i]
                    != Action::SpawnWorkers
        }),
{
    let ms = seq![Message::ConnectionFailed] + later;
    assert(ms[0] == Message::ConnectionFailed);
    assert(ms.drop_first() =~= later);
    lemma_no_spawn_after_connecting(Phase::Errored, later);
    let a = actions(Phase::Connecting, ms);
    assert forall|i: int| 0 <= i < a.len() implies a[i] != Action::SpawnWorkers by {
        if i > 0 {
            assert(a[i] == actions(Phase::Errored, later)[i - 1]);
        }
    }
}

/// A connecting session whose handshake fails becomes errored with no viewer,
/// no workers and no receive buffer, and starts nothing.
pub proof fn lemma_failed_handshake_session(f: &Filter)
    requires
        f.wf(),
        f.phase() == Phase::Connecting,
    ensures
        accepts(f.phase(), Message::ConnectionFailed),
        next_phase(f.phase(), Message::ConnectionFailed) == Phase::Errored,
        !workers_live(next_phase(f.phase(), Message::ConnectionFailed)),
        action_for(f.phase(), Message::ConnectionFailed) == Action::Nothing,
        next_viewer(f.viewer(), f.phase(), Message::ConnectionFailed) is None,
{
}

/// Once the workers have been joined, ending the session, once or again and
/// again, joins nothing.
pub proof fn lemma_finish_after_reclaim(p: Phase, n: nat)
    requires
        p == Phase::Drained || p == Phase::Closed || p == Phase::Errored,
    ensures
        ({
            let ms = Seq::new(n, |i: int| Message::Finish);
            forall|i: int| 0 <= i < actions(p, ms).len() ==> actions(p, ms)[i] == Action::Leave
        }),
    decreases n,
{
    let ms = Seq::new(n, |i: int| Message::Finish);
    if n > 0 {
        let rest = Seq::new((n - 1) as nat, |i: int| Message::Finish);
        assert(ms.drop_first() =~= rest);
        let q = next_phase(p, Message::Finish);
        lemma_finish_after_reclaim(q, (n - 1) as nat);
        let a = actions(p, ms);
        assert forall|i: int| 0 <= i < a.len() implies a[i] == Action::Leave by {
            if i > 0 {
                assert(a[i] == actions(q, rest)[i - 1]);
            }
        }
    }
}

/// After the workers have been joined, or when there never were any after
/// the handshake, no event asks for a join.
pub proof fn lemma_no_join_after(p: Phase, ms: Seq<Message>)
    requires
        p == Phase::Drained || p == Phase::Closed || p == Phase::Errored,
    ensures
        forall|i: int| 0 <= i < actions(p, ms).len() ==> !joins(#[trigger] actions(p, ms)[i]),
    decreases ms.len(),
{
    if ms.len() > 0 {
        let q = next_phase(p, ms[0]);
        lemma_no_join_after(q, ms.drop_first());
        let a = actions(p, ms);
        assert forall|i: int| 0 <= i < a.len() implies !joins(#[trigger] a[i]) by {
            if i > 0 {
                assert(a[i] == actions(q, ms.drop_first())[i - 1]);
            }
        }
    }
}

/// Over any run the workers are joined at most once: after a join no event
/// asks for another.
pub proof fn lemma_join_once(p: Phase, ms: Seq<Message>)
    ensures
        forall|i: int, j: int|
            0 <= i < j < actions(p, ms).len() && joins(#[trigger] actions(p, ms)[i]) ==> !joins(
                #[trigger] actions(p, ms)[j],
            ),
    decreases ms.len(),
{
    if ms.len() > 0 {
        let q = next_phase(p, ms[0]);
        let rest = ms.drop_first();
        lemma_join_once(q, rest);
        let a = actions(p, ms);
        let b = actions(q, rest);
        assert forall|i: int, j: int|
            0 <= i < j < a.len() && joins(#[trigger] a[i]) implies !joins(#[trigger] a[j]) by {
            assert(a[j] == b[j - 1]);
            if i > 0 {
                assert(a[i] == b[i - 1]);
            } else {
                lemma_no_join_after(q, rest);
            }
        }
    }
}

/// A streaming session with one device.
pub struct Filter {
    phase: Phase,
    graph: Option<Graph>,
}

impl Filter {
    pub closed spec fn phase(&self) -> Phase {
        self.phase
    }

    /// The viewer's mode and input series, present while connected.
    pub closed spec fn viewer(&self) -> Option<(graph::Mode, Seq<u32>)> {
        match self.graph {
            Some(g) => Some((g.mode(), g.input())),
            None => None,
        }
    }

    /// A viewer exists exactly while connected, and its window is valid.
    pub open spec fn wf(&self) -> bool {
        &&& (self.viewer() is Some <==> (self.phase() == Phase::Streaming || self.phase()
            == Phase::Drained))
        &&& (self.viewer() matches Some((mode, _)) ==> mode_wf(mode))
    }

    /// Whether the session takes `message` in its current phase.
    pub fn accepts(&self, message: &Message) -> (r: bool)
        ensures
            r == accepts(self.phase(), *message),
    {
        match message {
            Message::ConnectionFailed | Message::ConnectionEstablished { .. } => self.phase
                == Phase::Connecting,
            Message::Graph(_) | Message::Refresh { .. } => self.phase == Phase::Streaming
                || self.phase == Phase::Drained,
            Message::Finish => self.phase != Phase::Connecting,
        }
    }

    /// A session waiting for its handshake.
    pub fn new() -> (r: Filter)
        ensures
            r.wf(),
            r.phase() == Phase::Connecting,
            r.viewer() is None,
    {
        Filter { phase: Phase::Connecting, graph: None }
    }

    /// The current phase.
    pub fn current_phase(&self) -> (r: Phase)
        ensures
            r == self.phase(),
    {
        self.phase
    }

    /// Handles one event and says what the caller must do.
    pub fn update(&mut self, message: Message) -> (r: Action)
        requires
            old(self).wf(),
            accepts(old(self).phase(), message),
        ensures
            final(self).wf(),
            final(self).phase() == next_phase(old(self).phase(), message),
            r == action_for(old(self).phase(), message),
            final(self).viewer() == next_viewer(old(self).viewer(), old(self).phase(), message),
    {
        match message {
            Message::ConnectionFailed => {
                if self.phase == Phase::Connecting {
                    self.phase = Phase::Errored;
                }
                Action::Nothing
            },
            Message::ConnectionEstablished { input } => {
                if self.phase == Phase::Connecting {
                    self.phase = Phase::Streaming;
                    self.graph = Some(Graph::new(input));
                    Action::SpawnWorkers
                } else {
                    Action::Nothing
                }
            },
            Message::Graph(gm) => {
                match &mut self.graph {
                    Some(g) => g.update(gm),
                    None => {},
                }
                Action::Nothing
            },
            Message::Refresh { receiver_finished } => {
                if self.phase == Phase::Streaming && receiver_finished {
                    self.phase = Phase::Drained;
                    Action::JoinWorkers
                } else {
                    Action::Nothing
                }
            },
            Message::Finish => {
                match self.phase {
                    Phase::Connecting => Action::Nothing,
                    Phase::Streaming => {
                        self.phase = Phase::Closed;
                        self.graph = None;
                        Action::CancelJoinAndLeave
                    },
                    Phase::Errored => Action::Leave,
                    _ => {
                        self.phase = Phase::Closed;
                        self.graph = None;
                        Action::Leave
                    },
                }
            },
        }
    }

    /// Whether the refresh tick should run: while the workers exist.
    pub fn ticking(&self) -> (r: bool)
        ensures
            r == workers_live(self.phase()),
    {
        self.phase == Phase::Streaming
    }

    /// Whether the session may be exported: connected, with both workers joined.
    pub fn can_export(&self) -> (r: bool)
        ensures
            r == (self.phase() == Phase::Drained),
    {
        self.phase == Phase::Drained
    }

    /// The record of the session, once both workers have been joined: the
    /// input series as generated and the received samples as `output` holds
    /// them now, both in order.
    pub fn export(&self, output: &SampleBuffer) -> (r: Option<ExportRecord>)
        requires
            self.wf(),
        ensures
            r is Some <==> self.phase() == Phase::Drained,
            r matches Some(rec) ==> self.viewer() matches Some((_, series)) && rec.input@ == series
                && rec.output@ == output@.samples,
    {
        if self.phase == Phase::Drained {
            match &self.graph {
                Some(g) => Some(g.export(output)),
                None => None,
            }
        } else {
            None
        }
    }

    /// An empty receive buffer for the session, sized to its input series;
    /// none while not connected.
    pub fn output_buffer(&self) -> (r: Option<SampleBuffer>)
        ensures
            match self.viewer() {
                Some((_, series)) => r matches Some(b) && b@ == RxModel::start(series.len()),
                None => r is None,
            },
    {
        match &self.graph {
            Some(g) => Some(g.output_buffer()),
            None => None,
        }
    }

    /// The window to draw when `total` samples have been received; none while
    /// not connected or while nothing has arrived.
    pub fn window(&self, total: usize) -> (r: Option<(usize, usize)>)
        ensures
            match self.viewer() {
                Some((mode, _)) => graph::same_window(r, graph::window_of(mode, total as nat)),
                None => r is None,
            },
    {
        match &self.graph {
            Some(g) => g.window(total),
            None => None,
        }
    }
}

} // verus!
