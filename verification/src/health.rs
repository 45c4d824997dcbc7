//! Health keepalive: one persistent client-streaming call carries periodic
//! "I am alive" signals. The channel owns the single send-capable handle —
//! every caller's ping funnels through it — and closing is terminal: a send
//! against a closed channel fails fast with a distinguishable error.

use crate::errors::Error;
use vstd::prelude::*;

verus! {

/// Lifecycle of the keepalive stream.
#[derive(Clone, Copy, Debug, PartialEq, Eq, Structural)]
pub enum HealthState {
    /// No stream yet; the first send opens it.
    Unopened,
    /// The one stream is open and carrying signals.
    Streaming,
    /// Closed by cancellation, receiver drop, or transport error. Terminal.
    Closed,
}

/// One keepalive operation, as the accounting sees it.
#[derive(Clone, Copy, Debug, PartialEq, Eq, Structural)]
pub enum HealthOp {
    /// A caller asked for one "alive" signal.
    Send,
    /// The owning process cancelled the keepalive, or the receiving side
    /// of the enqueue channel was dropped.
    Cancel,
    /// The transport under the stream failed irrecoverably.
    TransportError,
}

/// Ghost accounting of the keepalive: its state, how many signals were
/// transmitted, and how many streams were ever opened.
pub struct HealthModel {
    pub state: HealthState,
    /// Signals transmitted so far, all on the one stream.
    pub sent: nat,
    /// Streams ever opened; never more than one.
    pub streams: nat,
}

impl HealthModel {
    /// States the transitions can reach: at most one stream, and no signal
    /// before it exists.
    pub open spec fn wf(self) -> bool {
        &&& self.streams <= 1
        &&& self.state is Unopened ==> self.streams == 0
        &&& self.state is Streaming ==> self.streams == 1
        &&& self.streams == 0 ==> self.sent == 0
    }

    /// Freshly constructed: no stream, nothing sent.
    pub open spec fn init() -> HealthModel {
        HealthModel { state: HealthState::Unopened, sent: 0, streams: 0 }
    }

    /// One send: on a closed channel it is rejected; otherwise the stream
    /// is opened if this is the first signal, and exactly one signal goes
    /// out on it. The second component says whether the send was accepted.
    pub open spec fn send_step(self) -> (HealthModel, bool) {
        match self.state {
            HealthState::Closed => (self, false),
            HealthState::Unopened => (
                HealthModel { state: HealthState::Streaming, sent: self.sent + 1, streams: self.streams + 1 },
                true,
            ),
            HealthState::Streaming => (
                HealthModel { state: HealthState::Streaming, sent: self.sent + 1, ..self },
                true,
            ),
        }
    }

    /// Closing — by cancellation, receiver drop, or transport error — is
    /// terminal and transmits nothing.
    pub open spec fn close_step(self) -> HealthModel {
        HealthModel { state: HealthState::Closed, ..self }
    }

    /// The state after one operation.
    pub open spec fn step(self, op: HealthOp) -> HealthModel {
        match op {
            HealthOp::Send => self.send_step().0,
            HealthOp::Cancel => self.close_step(),
            HealthOp::TransportError => self.close_step(),
        }
    }

    /// The state after a whole sequence of operations.
    pub open spec fn run(m: HealthModel, ops: Seq<HealthOp>) -> HealthModel
        decreases ops.len(),
    {
        if ops.len() == 0 {
            m
        } else {
            HealthModel::run(m.step(ops[0]), ops.drop_first())
        }
    }

    /// How many of the operations are sends the channel accepted.
    pub open spec fn accepted_sends(m: HealthModel, ops: Seq<HealthOp>) -> nat
        decreases ops.len(),
    {
        if ops.len() == 0 {
            0
        } else {
            let here: nat = if ops[0] is Send && m.send_step().1 {
                1
            } else {
                0
            };
            here + HealthModel::accepted_sends(m.step(ops[0]), ops.drop_first())
        }
    }
}

/// The keepalive channel a caller holds: a narrow enqueue-style handle.
/// Each accepted send causes one "alive" signal on the one owned stream;
/// the loop that performs the network writes reports closure back through
/// [`HealthChannel::cancel`] and [`HealthChannel::on_transport_error`].
pub struct HealthChannel {
    /// Where the stream stands.
    pub state: HealthState,
    /// Ghost accounting of signals and streams.
    pub model: Ghost<HealthModel>,
}

impl HealthChannel {
    /// The accounting view of the channel.
    pub open spec fn m(self) -> HealthModel {
        self.model@
    }

    /// The accounting agrees with the visible state and is reachable.
    pub open spec fn wf(self) -> bool {
        &&& self.model@.state == self.state
        &&& self.model@.wf()
    }

    /// A fresh keepalive channel; the stream is opened lazily by the
    /// first send.
    pub fn new() -> (c: Self)
        ensures
            c.wf(),
            c.m() == HealthModel::init(),
    {
        HealthChannel { state: HealthState::Unopened, model: Ghost(HealthModel::init()) }
    }

    /// Opens the stream eagerly, before any send; the one stream this
    /// channel will ever own.
    pub fn open(&mut self)
        requires
            old(self).wf(),
            old(self).state is Unopened,
        ensures
            final(self).wf(),
            final(self).state is Streaming,
            final(self).m() == (HealthModel {
                state: HealthState::Streaming,
                sent: old(self).m().sent,
                streams: old(self).m().streams + 1,
            }),
    {
        self.model = Ghost(
            HealthModel {
                state: HealthState::Streaming,
                sent: self.model@.sent,
                streams: self.model@.streams + 1,
            },
        );
        self.state = HealthState::Streaming;
    }

    /// Requests one "alive" signal. On an open (or not yet opened)
    /// channel the signal is accepted and transmitted on the one stream;
    /// on a closed channel the send fails fast with
    /// [`Error::HealthPingConnectionFailure`] and nothing is transmitted.
    pub fn send(&mut self) -> (r: Result<(), Error>)
        requires
            old(self).wf(),
        ensures
            final(self).wf(),
            final(self).m() == old(self).m().send_step().0,
            (r is Ok) == old(self).m().send_step().1,
            old(self).state is Closed ==> (r matches Err(e) && e matches
                Error::HealthPingConnectionFailure(s) && s@ == "health stream is closed"@
                && *final(self) == *old(self)),
            !(old(self).state is Closed) ==> r == Ok::<(), Error>(()) && final(self).state
                is Streaming,
    {
        match self.state {
            HealthState::Closed => {
                Err(Error::HealthPingConnectionFailure("health stream is closed".to_owned()))
            },
            HealthState::Unopened => {
                proof {
                    let m0 = self.model@;
                    assert(m0.send_step().0 == HealthModel {
                        state: HealthState::Streaming,
                        sent: m0.sent + 1,
                        streams: m0.streams + 1,
                    });
                }
                self.model = Ghost(self.model@.send_step().0);
                self.state = HealthState::Streaming;
                Ok(())
            },
            HealthState::Streaming => {
                self.model = Ghost(self.model@.send_step().0);
                Ok(())
            },
        }
    }

    /// Explicit cancellation by the owning process, or the receiving side
    /// of the enqueue channel going away: the channel closes for good.
    pub fn cancel(&mut self)
        requires
            old(self).wf(),
        ensures
            final(self).wf(),
            final(self).m() == old(self).m().close_step(),
            final(self).state is Closed,
    {
        self.model = Ghost(self.model@.close_step());
        self.state = HealthState::Closed;
    }

    /// An unrecoverable transport error on a send: the channel closes for
    /// good; the library never reconnects across a broken stream.
    pub fn on_transport_error(&mut self)
        requires
            old(self).wf(),
        ensures
            final(self).wf(),
            final(self).m() == old(self).m().close_step(),
            final(self).state is Closed,
    {
        self.model = Ghost(self.model@.close_step());
        self.state = HealthState::Closed;
    }

    /// Whether the channel is closed: every further send will fail fast.
    pub fn is_closed(&self) -> (r: bool)
        ensures
            r == (self.state is Closed),
    {
        match self.state {
            HealthState::Closed => true,
            _ => false,
        }
    }
}

/// Keepalive single-writer. From any state the channel can be in — fresh,
/// opened eagerly, or mid-stream — however many callers request signals
/// and in whatever order the operations arrive, the channel opens at most
/// one stream, and the signals transmitted grow by exactly the accepted
/// sends, one each: nothing is duplicated onto a second writer and nothing
/// is lost.
pub proof fn lemma_keepalive_single_writer(m: HealthModel, ops: Seq<HealthOp>)
    requires
        m.wf(),
    ensures
        HealthModel::run(m, ops).wf(),
        HealthModel::run(m, ops).streams <= 1,
        HealthModel::run(m, ops).sent == m.sent + HealthModel::accepted_sends(m, ops),
{
    lemma_run_accounting(m, ops);
}

/// Keepalive closes cleanly. Closing is terminal: after a cancellation, no
/// later operation reopens the stream, no send is ever accepted again, and
/// nothing further is transmitted.
pub proof fn lemma_keepalive_cancel_terminal(m: HealthModel, ops: Seq<HealthOp>)
    requires
        m.wf(),
    ensures
        m.close_step().state is Closed,
        HealthModel::run(m.close_step(), ops).state is Closed,
        HealthModel::run(m.close_step(), ops).sent == m.sent,
        HealthModel::accepted_sends(m.close_step(), ops) == 0,
    decreases ops.len(),
{
    if ops.len() > 0 {
        let m1 = m.close_step();
        assert(m1.step(ops[0]) == m1.close_step() || m1.step(ops[0]) == m1);
        assert(m1.close_step() == m1);
        lemma_keepalive_cancel_terminal(m, ops.drop_first());
        assert(HealthModel::run(m1, ops) == HealthModel::run(m1.step(ops[0]), ops.drop_first()));
        assert(m1.step(ops[0]) == m1);
    }
}

/// Along any run, the accounting adds exactly one transmitted signal per
/// accepted send and never opens a second stream.
proof fn lemma_run_accounting(m: HealthModel, ops: Seq<HealthOp>)
    requires
        m.wf(),
    ensures
        HealthModel::run(m, ops).wf(),
        HealthModel::run(m, ops).streams <= 1,
        HealthModel::run(m, ops).sent == m.sent + HealthModel::accepted_sends(m, ops),
    decreases ops.len(),
{
    if ops.len() > 0 {
        let m1 = m.step(ops[0]);
        assert(m1.wf());
        lemma_run_accounting(m1, ops.drop_first());
    }
}

} // verus!
