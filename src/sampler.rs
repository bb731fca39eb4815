//! The network-status sampler's decisions: one status query per timer tick, a
//! report for each query that succeeds, nothing for one that fails.
//!
//! The host arms the timer, runs the query and hands each outcome back as an
//! event; the sampler answers with what to do next.
use vstd::prelude::*;

verus! {

/// The default time between two status queries, in milliseconds.
pub const DEFAULT_INTERVAL_MS: u64 = 5000;

/// What the sampler waits for.
#[derive(Debug, Clone, Copy, PartialEq, Eq, Structural)]
pub enum SamplerPhase {
    /// The timer is armed.
    Waiting,
    /// A status query is in flight.
    Querying,
}

/// What the host tells the sampler.
#[derive(Debug, Clone, Copy, PartialEq, Eq, Structural)]
pub enum SamplerEvent {
    /// The interval has elapsed.
    TimerElapsed,
    /// The status query succeeded.
    StatusReady,
    /// The status query failed.
    StatusFailed,
}

/// What the sampler asks the host to do.
#[derive(Debug, Clone, Copy, PartialEq, Eq, Structural)]
pub enum SamplerAction {
    /// Query the network status.
    Query,
    /// Report the status with fresh usage information, then arm the timer.
    ReportAndRearm,
    /// Arm the timer without reporting.
    Rearm,
    /// The event was not awaited: do nothing.
    Ignore,
}

/// The sampler's state, in the mathematical model: its phase, the ticks seen and the
/// reports asked for.
pub ghost struct SamplerView {
    pub phase: SamplerPhase,
    pub ticks: nat,
    pub reports: nat,
}

/// The phase and the action that follow `e` in phase `p`.
pub open spec fn transition(p: SamplerPhase, e: SamplerEvent) -> (SamplerPhase, SamplerAction) {
    match (p, e) {
        (SamplerPhase::Waiting, SamplerEvent::TimerElapsed) => (SamplerPhase::Querying, SamplerAction::Query),
        (SamplerPhase::Querying, SamplerEvent::StatusReady) => (SamplerPhase::Waiting, SamplerAction::ReportAndRearm),
        (SamplerPhase::Querying, SamplerEvent::StatusFailed) => (SamplerPhase::Waiting, SamplerAction::Rearm),
        _ => (p, SamplerAction::Ignore),
    }
}

/// The sampler's state and the action that follow `e` in state `s`: a tick is
/// counted when a query starts, a report when a successful query is reported.
pub open spec fn step(s: SamplerView, e: SamplerEvent) -> (SamplerView, SamplerAction) {
    let (phase, action) = transition(s.phase, e);
    (SamplerView {
        phase,
        ticks: if action == SamplerAction::Query { s.ticks + 1 } else { s.ticks },
        reports: if action == SamplerAction::ReportAndRearm { s.reports + 1 } else { s.reports },
    }, action)
}

/// The state of a fresh sampler.
pub open spec fn initial() -> SamplerView {
    SamplerView { phase: SamplerPhase::Waiting, ticks: 0, reports: 0 }
}

/// The state after the events `es`, in order, from `s`.
pub open spec fn run(s: SamplerView, es: Seq<SamplerEvent>) -> SamplerView
    decreases es.len(),
{
    if es.len() == 0 {
        s
    } else {
        step(run(s, es.drop_last()), es.last()).0
    }
}

/// At most one report per tick: none yet for a tick whose query is in flight.
pub open spec fn reports_within_ticks(s: SamplerView) -> bool {
    match s.phase {
        SamplerPhase::Waiting => s.reports <= s.ticks,
        SamplerPhase::Querying => s.reports < s.ticks,
    }
}

/// Whatever the events, a sampler never reports more often than its timer ticks,
/// and a failed query adds no report.
pub proof fn lemma_at_most_one_report_per_tick(es: Seq<SamplerEvent>)
    ensures
        reports_within_ticks(run(initial(), es)),
        run(initial(), es).reports <= run(initial(), es).ticks,
        forall|s: SamplerView| #[trigger] step(s, SamplerEvent::StatusFailed).0.reports == s.reports,
    decreases es.len(),
{
    if es.len() > 0 {
        lemma_at_most_one_report_per_tick(es.drop_last());
    }
}

/// The status sampler: a timer period and the phase of the current tick.
pub struct StatusSampler {
    interval_ms: u64,
    phase: SamplerPhase,
    ticks: Ghost<nat>,
    reports: Ghost<nat>,
}

impl View for StatusSampler {
    type V = SamplerView;

    closed spec fn view(&self) -> SamplerView {
        SamplerView { phase: self.phase, ticks: self.ticks@, reports: self.reports@ }
    }
}

impl StatusSampler {
    pub closed spec fn spec_interval_ms(&self) -> u64 {
        self.interval_ms
    }

    pub open spec fn wf(&self) -> bool {
        reports_within_ticks(self@)
    }

    /// A sampler with a period of `interval_ms`, its timer armed, that has seen nothing.
    pub fn new(interval_ms: u64) -> (r: StatusSampler)
        ensures
            r.wf(),
            r.spec_interval_ms() == interval_ms,
            r@ == initial(),
    {
        StatusSampler { interval_ms, phase: SamplerPhase::Waiting, ticks: Ghost(0), reports: Ghost(0) }
    }

    pub fn interval_ms(&self) -> (r: u64)
        ensures
            r == self.spec_interval_ms(),
    {
        self.interval_ms
    }

    pub fn phase(&self) -> (r: SamplerPhase)
        ensures
            r == self@.phase,
    {
        self.phase
    }

    /// Takes `e` and says what to do: a query when the timer elapses, a report when
    /// the query succeeds, only a new timer when it fails. Every tick is counted, and
    /// so is every report.
    pub fn on_event(&mut self, e: SamplerEvent) -> (r: SamplerAction)
        requires
            old(self).wf(),
        ensures
            final(self).wf(),
            final(self).spec_interval_ms() == old(self).spec_interval_ms(),
            (final(self)@, r) == step(old(self)@, e),
    {
        match (self.phase, e) {
            (SamplerPhase::Waiting, SamplerEvent::TimerElapsed) => {
                self.phase = SamplerPhase::Querying;
                self.ticks = Ghost(self.ticks@ + 1);
                SamplerAction::Query
            },
            (SamplerPhase::Querying, SamplerEvent::StatusReady) => {
                self.phase = SamplerPhase::Waiting;
                self.reports = Ghost(self.reports@ + 1);
                SamplerAction::ReportAndRearm
            },
            (SamplerPhase::Querying, SamplerEvent::StatusFailed) => {
                self.phase = SamplerPhase::Waiting;
                SamplerAction::Rearm
            },
            _ => SamplerAction::Ignore,
        }
    }
}

} // verus!
