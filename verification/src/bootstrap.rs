//! Connection bootstrap: after the channel is opened lazily, the sidecar is
//! probed with a trivial query at a fixed short interval until it answers,
//! under a hard overall deadline. The essential invariant: bounded total
//! wait, then deterministic failure.

use crate::errors::Error;
use vstd::prelude::*;

verus! {

/// Overall bootstrap deadline: how long the probing phase may last in all.
pub const BOOTSTRAP_DEADLINE_MS: u64 = 30000;

/// Pause between two liveness probes.
pub const BOOTSTRAP_PROBE_INTERVAL_MS: u64 = 100;

/// Where the bootstrap stands.
#[derive(Clone, Copy, Debug, PartialEq, Eq, Structural)]
pub enum BootstrapPhase {
    /// Still probing for a first successful query.
    Probing,
    /// A probe succeeded; the connection is ready for use.
    Connected,
    /// The deadline passed without a successful probe. Terminal.
    TimedOut,
}

/// What the loop driving the bootstrap must do next.
#[derive(Clone, Copy, Debug, PartialEq, Eq, Structural)]
pub enum BootstrapAction {
    /// Wait one probe interval, then probe again.
    Retry,
    /// Hand the connection to the caller.
    Done,
    /// Report [`Error::TimedOut`] and stop.
    Fail,
}

/// The poll-with-deadline machine. The driving loop performs one probe (a
/// trivial query against the sidecar), reports its outcome to
/// [`Bootstrap::on_probe`], and performs the action handed back; waiting
/// time is accounted one interval per failed probe.
#[derive(Clone, Copy, Debug, PartialEq)]
pub struct Bootstrap {
    /// Pause between probes, in milliseconds; at least one.
    pub interval_ms: u64,
    /// Overall deadline, in milliseconds.
    pub deadline_ms: u64,
    /// Waiting time spent so far, in milliseconds.
    pub elapsed_ms: u64,
    /// Where the bootstrap stands.
    pub phase: BootstrapPhase,
}

impl Bootstrap {
    /// A machine in a state the transitions can have reached: while
    /// probing, the elapsed wait is within the deadline, and it never
    /// passes the deadline by more than one interval.
    pub open spec fn wf(self) -> bool {
        &&& 1 <= self.interval_ms
        &&& self.deadline_ms + self.interval_ms <= u64::MAX
        &&& self.phase is Probing ==> self.elapsed_ms <= self.deadline_ms
        &&& self.elapsed_ms <= self.deadline_ms + self.interval_ms
    }

    /// Fresh machine: probing, nothing waited yet.
    pub fn new(deadline_ms: u64, interval_ms: u64) -> (m: Self)
        requires
            1 <= interval_ms,
            deadline_ms + interval_ms <= u64::MAX,
        ensures
            m.wf(),
            m == (Bootstrap { interval_ms, deadline_ms, elapsed_ms: 0, phase: BootstrapPhase::Probing }),
    {
        Bootstrap { interval_ms, deadline_ms, elapsed_ms: 0, phase: BootstrapPhase::Probing }
    }

    /// Fresh machine with the library's fixed deadline and probe interval.
    pub fn with_defaults() -> (m: Self)
        ensures
            m.wf(),
            m == (Bootstrap {
                interval_ms: BOOTSTRAP_PROBE_INTERVAL_MS,
                deadline_ms: BOOTSTRAP_DEADLINE_MS,
                elapsed_ms: 0,
                phase: BootstrapPhase::Probing,
            }),
    {
        Bootstrap::new(BOOTSTRAP_DEADLINE_MS, BOOTSTRAP_PROBE_INTERVAL_MS)
    }

    /// The state after one probe outcome: success connects; a failure
    /// either times the bootstrap out, when another interval would pass
    /// the deadline, or accounts one more interval of waiting.
    pub open spec fn spec_on_probe(self, ok: bool) -> Bootstrap {
        if !(self.phase is Probing) {
            self
        } else if ok {
            Bootstrap { phase: BootstrapPhase::Connected, ..self }
        } else if self.elapsed_ms + self.interval_ms > self.deadline_ms {
            Bootstrap {
                phase: BootstrapPhase::TimedOut,
                elapsed_ms: (self.elapsed_ms + self.interval_ms) as u64,
                ..self
            }
        } else {
            Bootstrap { elapsed_ms: (self.elapsed_ms + self.interval_ms) as u64, ..self }
        }
    }

    /// Feeds one probe outcome to the machine and says what to do next.
    pub fn on_probe(&mut self, ok: bool) -> (a: BootstrapAction)
        requires
            old(self).wf(),
            old(self).phase is Probing,
        ensures
            final(self).wf(),
            *final(self) == old(self).spec_on_probe(ok),
            a is Done <==> final(self).phase is Connected,
            a is Fail <==> final(self).phase is TimedOut,
            a is Retry <==> final(self).phase is Probing,
    {
        if ok {
            self.phase = BootstrapPhase::Connected;
            BootstrapAction::Done
        } else if self.deadline_ms < self.interval_ms || self.elapsed_ms > self.deadline_ms
            - self.interval_ms {
            self.elapsed_ms = self.elapsed_ms + self.interval_ms;
            self.phase = BootstrapPhase::TimedOut;
            BootstrapAction::Fail
        } else {
            self.elapsed_ms = self.elapsed_ms + self.interval_ms;
            BootstrapAction::Retry
        }
    }

    /// The error a timed-out bootstrap reports.
    pub fn failure_error(&self) -> (e: Error)
        requires
            self.phase is TimedOut,
        ensures
            e == Error::TimedOut,
    {
        Error::TimedOut
    }

    /// The state after a whole sequence of probe outcomes, stepping only
    /// while the machine still probes.
    pub open spec fn run(m: Bootstrap, events: Seq<bool>) -> Bootstrap
        decreases events.len(),
    {
        if events.len() == 0 || !(m.phase is Probing) {
            m
        } else {
            Bootstrap::run(m.spec_on_probe(events[0]), events.drop_first())
        }
    }
}

/// How a run of the machine unfolds, whatever the probe outcomes: the state
/// stays well formed; while it keeps probing, the elapsed wait is exactly
/// one interval per probe; once it leaves the probing phase it never moves
/// again; and with no successful probe it never reports a connection.
proof fn lemma_run_props(m: Bootstrap, events: Seq<bool>)
    requires
        m.wf(),
    ensures
        Bootstrap::run(m, events).wf(),
        Bootstrap::run(m, events).interval_ms == m.interval_ms,
        Bootstrap::run(m, events).deadline_ms == m.deadline_ms,
        m.phase is Probing && Bootstrap::run(m, events).phase is Probing ==> Bootstrap::run(
            m,
            events,
        ).elapsed_ms as int == m.elapsed_ms + events.len() * (m.interval_ms as int),
        !(m.phase is Probing) ==> Bootstrap::run(m, events) == m,
        m.phase is Probing && (forall|i: int| 0 <= i < events.len() ==> !events[i]) ==> !(
        Bootstrap::run(m, events).phase is Connected),
    decreases events.len(),
{
    if events.len() == 0 || !(m.phase is Probing) {
    } else {
        let m1 = m.spec_on_probe(events[0]);
        assert(m1.wf());
        lemma_run_props(m1, events.drop_first());
        if Bootstrap::run(m, events).phase is Probing {
            assert(events.len() * (m.interval_ms as int) == (events.len() - 1) * (
            m.interval_ms as int) + m.interval_ms) by (nonlinear_arith);
        }
        if forall|i: int| 0 <= i < events.len() ==> !events[i] {
            assert(!events[0]);
            assert(forall|i: int|
                0 <= i < events.drop_first().len() ==> !(#[trigger] events.drop_first()[i]));
        }
    }
}

/// Bootstrap bounded-wait. If the sidecar never answers, the machine does
/// not probe forever: however the outcomes come, the total waiting time
/// never passes the deadline by more than one probe interval; and once
/// enough probes have all failed — as soon as their intervals sum past the
/// deadline — the machine has deterministically timed out.
pub proof fn lemma_bootstrap_bounded_wait(m: Bootstrap, events: Seq<bool>)
    requires
        m.wf(),
        m.phase is Probing,
        m.elapsed_ms == 0,
    ensures
        Bootstrap::run(m, events).elapsed_ms <= m.deadline_ms + m.interval_ms,
        Bootstrap::run(m, events).phase is Probing ==> events.len() * (m.interval_ms as int)
            <= m.deadline_ms,
        (forall|i: int| 0 <= i < events.len() ==> !events[i]) && events.len() * (
        m.interval_ms as int) > m.deadline_ms ==> Bootstrap::run(m, events).phase is TimedOut,
{
    lemma_run_props(m, events);
    let r = Bootstrap::run(m, events);
    if r.phase is Probing {
        assert(r.elapsed_ms == events.len() * (m.interval_ms as int));
        assert(r.elapsed_ms <= r.deadline_ms);
    }
    if (forall|i: int| 0 <= i < events.len() ==> !events[i]) && events.len() * (
    m.interval_ms as int) > m.deadline_ms {
        assert(!(r.phase is Connected));
        assert(!(r.phase is Probing));
    }
}

} // verus!
