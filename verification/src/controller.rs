//! The experiment controller: a state machine that sequences fault
//! injection, the concurrent load-and-trace phase, reporting, and the
//! guaranteed reversion. Each step takes the outcome of the previous
//! outside operation as an event and decides the next action; the
//! surrounding process performs the actions and never decides anything.

use vstd::prelude::*;
use vstd::string::StringExecFns;
use vstd::string::StrSliceExecFns;
use crate::benchmark::PerformanceBenchmark;
use crate::label::label_spec;
use crate::outside::now_unix_secs;
use crate::report::{report_window, RunWindow};
use crate::topology::{clone_instances, Instance};
use crate::trace::{normalize_events, random_node, sort_events_by_timestamp, TraceEvent};

verus! {

/// Fixed settling margin, in seconds, added to both ends of the load
/// window and subtracted from both ends of the metrics query window.
pub const BUFFER_SECS: u64 = 60;

/// Length of the captured trace window, in seconds.
pub const TRACE_CAPTURE_SECS: u64 = 5;

/// The target rate of a load request: a fixed rate, or the global
/// default request policy.
#[derive(Clone, Copy, PartialEq, Eq, Structural, Debug)]
pub enum RateSpec {
    Fixed(u64),
    GlobalDefault,
}

/// A load request: the nodes to drive and the rate to drive them at.
pub struct EmitJobRequest {
    pub targets: Vec<Instance>,
    pub rate: RateSpec,
}

/// Aggregate result of one load window.
#[derive(Clone, Copy, PartialEq, Eq, Structural, Debug)]
pub struct TxStats {
    pub submitted: u64,
    pub committed: u64,
    pub expired: u64,
}

/// A delayed capture window: wait, then capture.
#[derive(Clone, Copy, PartialEq, Eq, Structural, Debug)]
pub struct TraceWindow {
    pub delay_secs: u64,
    pub capture_secs: u64,
}

/// Everything the concurrent running phase needs: the load request and
/// its window, the optional delayed trace capture, and the node the
/// backup task runs on, if any.
pub struct LoadPlan {
    pub request: EmitJobRequest,
    pub window_secs: u64,
    pub trace_plan: Option<TraceWindow>,
    pub backup_node: Option<Instance>,
}

impl LoadPlan {
    /// How long the running phase takes: load and capture proceed
    /// concurrently and the join waits for both, so the phase lasts as
    /// long as the longer of the two.
    pub open spec fn phase_secs(self) -> int {
        match self.trace_plan {
            None => self.window_secs as int,
            Some(t) => if t.delay_secs + t.capture_secs > self.window_secs {
                t.delay_secs + t.capture_secs
            } else {
                self.window_secs as int
            },
        }
    }
}

/// What the reporting step hands the outside: the metrics query window,
/// the label and window to tag the load statistics with, whether backup
/// metrics are owed, and the processed trace.
pub struct ReportPlan {
    /// The metrics backend query range; absent only on a clock reading
    /// that leaves no range in bounds.
    pub window: Option<RunWindow>,
    /// The experiment label every report line is tagged with.
    pub label: String,
    /// The load window length the statistics are tagged with.
    pub window_secs: u64,
    /// A backup ran, so its metrics and summary line are owed.
    pub backup_ran: bool,
    /// How many trace events were captured; absent when no trace was.
    pub traced_events: Option<usize>,
    /// The node whose trace the detailed-lookup hook renders.
    pub trace_lookup: Option<String>,
    /// Events were captured but none qualified as representative.
    pub trace_node_missing: bool,
    /// The captured events, merged and sorted by timestamp, for the
    /// detailed-lookup hook.
    pub sorted_events: Option<Vec<TraceEvent>>,
}

/// A fatal error of the run body. Reversion is attempted either way.
#[derive(Clone, Copy, PartialEq, Eq, Structural, Debug)]
pub enum BodyError {
    InjectionFailed,
    LoadFailed,
}

/// How the run ended: the first fatal body error, if any, as the primary
/// cause, and a reversion failure beside it as a secondary one, never
/// masking the first.
#[derive(Clone, Copy, PartialEq, Eq, Debug)]
pub struct RunOutcome {
    pub body_error: Option<BodyError>,
    pub revert_failed: bool,
}

impl RunOutcome {
    /// The run succeeded: no fatal body error, and reversion worked.
    pub open spec fn spec_succeeded(self) -> bool {
        self.body_error is None && !self.revert_failed
    }

    /// Whether the run succeeded.
    pub fn succeeded(&self) -> (r: bool)
        ensures
            r == self.spec_succeeded(),
    {
        self.body_error.is_none() && !self.revert_failed
    }
}

/// Where the run stands.
#[derive(Clone, Copy, PartialEq, Eq, Structural, Debug)]
pub enum Phase {
    Built,
    Injecting,
    Running,
    FetchingLogTrace,
    Reporting,
    Reverting,
    Done,
}

/// The outcome of one outside operation, handed back to the controller.
pub enum Event {
    /// Begin the run.
    Started,
    /// Every stop command finished; true when all succeeded.
    StopsDone(bool),
    /// The load window and the live capture both finished: the load
    /// statistics, absent on a driver error, and the captured events,
    /// absent when tracing was off.
    LoadAndTraceDone(Option<TxStats>, Option<Vec<(String, TraceEvent)>>),
    /// The log-index fetch finished; absent on a query error.
    LogTraceDone(Option<Vec<(String, TraceEvent)>>),
    /// Every report line was emitted.
    ReportDone,
    /// Every restart command finished; true when all succeeded.
    RestartsDone(bool),
}

/// What the controller asks the outside to do next.
pub enum Action {
    /// Stop these nodes, concurrently; report whether all stops worked.
    StopNodes(Vec<Instance>),
    /// Run the load-and-trace phase, and start the backup task if the
    /// plan names a node.
    RunLoad(LoadPlan),
    /// Fetch trace events from the log-index backend over this window,
    /// offset from the load start.
    FetchLogTrace(TraceWindow),
    /// Emit the report.
    Report(ReportPlan),
    /// Cancel the backup task if one ran, and restart these nodes.
    RevertNodes(Vec<Instance>, bool),
    /// The run is over.
    Finish(RunOutcome),
    /// The event did not belong to the current phase; nothing changed.
    Ignore,
}

/// Which event each phase is waiting for.
pub open spec fn expected_event(phase: Phase, event: Event) -> bool {
    match (phase, event) {
        (Phase::Built, Event::Started) => true,
        (Phase::Injecting, Event::StopsDone(_)) => true,
        (Phase::Running, Event::LoadAndTraceDone(_, _)) => true,
        (Phase::FetchingLogTrace, Event::LogTraceDone(_)) => true,
        (Phase::Reporting, Event::ReportDone) => true,
        (Phase::Reverting, Event::RestartsDone(_)) => true,
        _ => false,
    }
}

/// One run of the experiment, from injection to reversion.
pub struct ExperimentRun {
    pub bench: PerformanceBenchmark,
    /// Drive load at the up validators themselves, or at their paired
    /// fullnodes.
    pub emit_to_validator: bool,
    pub phase: Phase,
    pub body_error: Option<BodyError>,
    /// The node the backup task runs on; set exactly when one started.
    pub backup_node: Option<Instance>,
    /// A backup was wanted but no validator was up to run it on.
    pub backup_unavailable: bool,
    /// The load statistics, once the load window finished.
    pub stats: Option<TxStats>,
    /// The live capture, held while the log-index fetch is out.
    pub live_trace: Option<Vec<(String, TraceEvent)>>,
    /// How many times reversion was handed to the outside.
    pub reverts_attempted: u64,
}

/// The event view of an optional capture.
pub open spec fn raw_view(o: Option<Vec<(String, TraceEvent)>>) -> Option<
    Seq<(String, TraceEvent)>,
> {
    match o {
        Some(v) => Some(v@),
        None => None,
    }
}

/// A captured event the representative pick may anchor on.
pub open spec fn raw_candidate(p: (String, TraceEvent)) -> bool {
    p.1.payload.is_submit && p.1.payload.txn_prefixed
}

/// Some captured event qualifies as representative.
pub open spec fn has_raw_candidate(raw: Seq<(String, TraceEvent)>) -> bool {
    exists|i: int| 0 <= i < raw.len() && raw_candidate(#[trigger] raw[i])
}

/// The load plan the controller owes when the running phase starts.
pub open spec fn load_plan_matches(s: ExperimentRun, plan: LoadPlan) -> bool {
    &&& plan.window_secs == s.bench.duration_secs + 2 * BUFFER_SECS
    &&& plan.request.targets@ == (if s.emit_to_validator {
        s.bench.up_validators@
    } else {
        s.bench.up_fullnodes@
    })
    &&& plan.request.rate == (match s.bench.tps {
        Some(t) => RateSpec::Fixed(t),
        None => RateSpec::GlobalDefault,
    })
    &&& plan.trace_plan == (if s.bench.trace {
        Some(TraceWindow { delay_secs: BUFFER_SECS, capture_secs: TRACE_CAPTURE_SECS })
    } else {
        None::<TraceWindow>
    })
    &&& plan.backup_node == s.backup_node
    &&& plan.phase_secs() == plan.window_secs
}

/// The report plan the controller owes when the reporting phase starts,
/// given which capture was resolved.
pub open spec fn report_plan_matches(
    s: ExperimentRun,
    resolved: Option<Seq<(String, TraceEvent)>>,
    plan: ReportPlan,
) -> bool {
    &&& plan.label@ == label_spec(s.bench.tps, s.bench.percent_nodes_down as nat)
    &&& plan.window_secs == s.bench.duration_secs + 2 * BUFFER_SECS
    &&& plan.backup_ran == (s.backup_node is Some)
    &&& (plan.window is Some ==> plan.window->0.start_secs + plan.window_secs
        == plan.window->0.end_secs + 2 * BUFFER_SECS)
    &&& (match resolved {
        None => plan.traced_events is None && plan.trace_lookup is None
            && !plan.trace_node_missing && plan.sorted_events is None,
        Some(raw) => {
            &&& (plan.traced_events matches Some(c) && c == raw.len())
            &&& (plan.trace_lookup is Some <==> has_raw_candidate(raw))
            &&& (plan.trace_lookup matches Some(node) ==> exists|i: int|
                0 <= i < raw.len() && raw_candidate(#[trigger] raw[i]) && node == raw[i].0)
            &&& plan.trace_node_missing == !has_raw_candidate(raw)
            &&& (plan.sorted_events matches Some(sev) && crate::trace::merged_trace(raw, sev@))
        },
    })
}

impl ExperimentRun {
    /// The controller's invariant: the configuration is valid, and
    /// reversion has been handed out exactly once as soon as the run
    /// reaches its reverting tail, never before, never twice.
    pub open spec fn inv(self) -> bool {
        &&& self.bench.wf()
        &&& match self.phase {
            Phase::Built | Phase::Injecting | Phase::Running | Phase::FetchingLogTrace
                | Phase::Reporting => self.reverts_attempted == 0,
            Phase::Reverting | Phase::Done => self.reverts_attempted == 1,
        }
    }

    /// A fresh run over a built experiment.
    pub fn new(bench: PerformanceBenchmark, emit_to_validator: bool) -> (r: Self)
        requires
            bench.wf(),
        ensures
            r.inv(),
            r.phase == Phase::Built,
            r.bench == bench,
            r.emit_to_validator == emit_to_validator,
            r.body_error is None,
            r.backup_node is None,
            !r.backup_unavailable,
            r.stats is None,
            r.live_trace is None,
            r.reverts_attempted == 0,
    {
        ExperimentRun {
            bench,
            emit_to_validator,
            phase: Phase::Built,
            body_error: None,
            backup_node: None,
            backup_unavailable: false,
            stats: None,
            live_trace: None,
            reverts_attempted: 0,
        }
    }

    /// Hands out the reversion: cancel the backup if one ran, restart
    /// every down validator. Counted, so that the invariant shows it
    /// happens exactly once per run.
    fn revert_action(&mut self) -> (action: Action)
        requires
            old(self).reverts_attempted == 0,
    ensures
            *final(self) == (ExperimentRun {
                phase: Phase::Reverting,
                reverts_attempted: 1,
                ..*old(self)
            }),
            (action matches Action::RevertNodes(nodes, cancel) && nodes@
                == old(self).bench.down_validators@ && cancel == (old(self).backup_node is Some)),
    {
        self.phase = Phase::Reverting;
        self.reverts_attempted = self.reverts_attempted + 1;
        Action::RevertNodes(clone_instances(&self.bench.down_validators), self.backup_node.is_some())
    }

    /// Processes the resolved capture and either reports or, when the
    /// load failed, goes straight to reversion.
    #[verifier::rlimit(50)]
    fn finish_running(&mut self, resolved: Option<Vec<(String, TraceEvent)>>) -> (action: Action)
        requires
            old(self).bench.wf(),
            old(self).reverts_attempted == 0,
        ensures
            final(self).bench == old(self).bench,
            final(self).emit_to_validator == old(self).emit_to_validator,
            final(self).body_error == old(self).body_error,
            final(self).backup_node == old(self).backup_node,
            final(self).backup_unavailable == old(self).backup_unavailable,
            final(self).stats == old(self).stats,
            old(self).stats is None ==> final(self).phase == Phase::Reverting
                && final(self).reverts_attempted == 1 && (action matches Action::RevertNodes(
                nodes,
                cancel,
            ) && nodes@ == old(self).bench.down_validators@ && cancel == (
            old(self).backup_node is Some)),
            old(self).stats is Some ==> final(self).phase == Phase::Reporting
                && final(self).reverts_attempted == 0 && (action matches Action::Report(plan)
                && report_plan_matches(*old(self), raw_view(resolved), plan)),
    {
        let ghost s0 = *self;
        if self.stats.is_none() {
            return self.revert_action();
        }
        let mut traced_events: Option<usize> = None;
        let mut trace_lookup: Option<String> = None;
        let mut trace_node_missing: bool = false;
        let mut sorted_events: Option<Vec<TraceEvent>> = None;
        match &resolved {
            Some(raw) => {
                let normalized = normalize_events(raw);
                let sorted = sort_events_by_timestamp(&normalized);
                let pick = random_node(&normalized);
                proof {
                    assert forall|i: int| 0 <= i < raw@.len() implies (crate::trace::is_candidate(
                        #[trigger] normalized@[i],
                    ) <==> raw_candidate(raw@[i])) by {}
                    if pick is Some {
                        let i = choose|i: int|
                            0 <= i < normalized@.len() && crate::trace::is_candidate(
                                #[trigger] normalized@[i],
                            ) && normalized@[i].payload.peer == Some(pick->0);
                        assert(raw_candidate(raw@[i]) && pick->0 == raw@[i].0);
                        assert(has_raw_candidate(raw@));
                    }
                    if has_raw_candidate(raw@) {
                        let i = choose|i: int| 0 <= i < raw@.len() && raw_candidate(
                            #[trigger] raw@[i],
                        );
                        assert(crate::trace::is_candidate(normalized@[i]));
                        assert(pick is Some);
                    }
                    let perm = choose|perm: Seq<int>|
                        #![trigger perm.len()]
                        {
                            &&& perm.len() == sorted@.len()
                            &&& (forall|k: int|
                                0 <= k < perm.len() ==> 0 <= #[trigger] perm[k]
                                    < normalized@.len() && sorted@[k] == normalized@[perm[k]])
                            &&& (forall|i: int, j: int|
                                0 <= i < j < perm.len() ==> #[trigger] perm[i]
                                    != #[trigger] perm[j])
                            &&& (forall|i: int, j: int|
                                0 <= i < j < perm.len() && sorted@[i].timestamp
                                    == sorted@[j].timestamp ==> #[trigger] perm[i]
                                    < #[trigger] perm[j])
                        };
                    assert forall|k: int| 0 <= k < perm.len() implies 0 <= #[trigger] perm[k]
                        < raw@.len() && sorted@[k].timestamp == raw@[perm[k]].1.timestamp
                        && sorted@[k].payload.is_submit == raw@[perm[k]].1.payload.is_submit
                        && sorted@[k].payload.txn_prefixed
                        == raw@[perm[k]].1.payload.txn_prefixed && sorted@[k].payload.peer
                        == Some(raw@[perm[k]].0) by {
                        assert(sorted@[k] == normalized@[perm[k]]);
                    }
                    assert(crate::trace::merged_trace(raw@, sorted@));
                }
                traced_events = Some(raw.len());
                trace_node_missing = pick.is_none();
                trace_lookup = pick;
                sorted_events = Some(sorted);
            },
            None => {},
        }
        let now = now_unix_secs();
        let window_secs = self.bench.duration_secs + 2 * BUFFER_SECS;
        let window = report_window(now, window_secs, BUFFER_SECS);
        let plan = ReportPlan {
            window,
            label: self.bench.label(),
            window_secs,
            backup_ran: self.backup_node.is_some(),
            traced_events,
            trace_lookup,
            trace_node_missing,
            sorted_events,
        };
        self.phase = Phase::Reporting;
        proof {
            assert(plan.label@ == label_spec(s0.bench.tps, s0.bench.percent_nodes_down as nat));
            assert(plan.window_secs == s0.bench.duration_secs + 2 * BUFFER_SECS);
            assert(plan.backup_ran == (s0.backup_node is Some));
            assert(plan.window is Some ==> plan.window->0.start_secs + plan.window_secs
                == plan.window->0.end_secs + 2 * BUFFER_SECS);
            match raw_view(resolved) {
                None => {
                    assert(plan.traced_events is None && plan.trace_lookup is None
                        && !plan.trace_node_missing && plan.sorted_events is None);
                },
                Some(raw) => {
                    assert(plan.traced_events matches Some(c) && c == raw.len());
                    assert(plan.trace_lookup is Some <==> has_raw_candidate(raw));
                    assert(plan.trace_node_missing == !has_raw_candidate(raw));
                    assert(plan.sorted_events matches Some(sev) && crate::trace::merged_trace(
                        raw,
                        sev@,
                    ));
                },
            }
            assert(report_plan_matches(s0, raw_view(resolved), plan));
        }
        Action::Report(plan)
    }

    /// One step of the run: takes the outcome of the previous outside
    /// operation, moves to the next phase, and says what to do next.
    /// Whatever happens — injection failure, a load-driver error, a lost
    /// trace — the reversion is handed out exactly once before the run
    /// is done, and an event from the wrong phase changes nothing.
    pub fn step(&mut self, event: Event) -> (action: Action)
        requires
            old(self).inv(),
        ensures
            final(self).inv(),
            final(self).bench == old(self).bench,
            final(self).emit_to_validator == old(self).emit_to_validator,
            (action is RevertNodes) <==> final(self).reverts_attempted == old(
                self,
            ).reverts_attempted + 1,
            !(action is RevertNodes) ==> final(self).reverts_attempted == old(
                self,
            ).reverts_attempted,
            !expected_event(old(self).phase, event) ==> *final(self) == *old(self)
                && action is Ignore,
            (old(self).phase is Built && event is Started) ==> *final(self) == (ExperimentRun {
                phase: Phase::Injecting,
                ..*old(self)
            }) && (action matches Action::StopNodes(nodes) && nodes@ == old(
                self,
            ).bench.down_validators@),
            old(self).phase is Injecting ==> (event matches Event::StopsDone(ok) ==> (ok ==> {
                &&& final(self).phase == Phase::Running
                &&& final(self).body_error == old(self).body_error
                &&& final(self).stats == old(self).stats
                &&& final(self).live_trace == old(self).live_trace
                &&& (old(self).bench.backup && old(self).bench.up_validators@.len() > 0 ==> (
                final(self).backup_node is Some) && !final(self).backup_unavailable && (exists|
                    i: int,
                |
                    0 <= i < old(self).bench.up_validators@.len() && final(self).backup_node
                        == Some(#[trigger] old(self).bench.up_validators@[i])))
                &&& (old(self).bench.backup && old(self).bench.up_validators@.len() == 0 ==> (
                final(self).backup_node is None) && final(self).backup_unavailable)
                &&& (!old(self).bench.backup ==> (final(self).backup_node is None)
                    && !(final(self).backup_unavailable))
                &&& (action matches Action::RunLoad(plan) && load_plan_matches(
                    *final(self),
                    plan,
                ))
            }) && (!ok ==> {
                &&& *final(self) == (ExperimentRun {
                    phase: Phase::Reverting,
                    body_error: Some(BodyError::InjectionFailed),
                    reverts_attempted: 1,
                    ..*old(self)
                })
                &&& (action matches Action::RevertNodes(nodes, cancel) && nodes@ == old(
                    self,
                ).bench.down_validators@ && cancel == (old(self).backup_node is Some))
            })),
            old(self).phase is Running ==> (event matches Event::LoadAndTraceDone(stats, live)
                ==> {
                &&& final(self).stats == stats
                &&& final(self).body_error == (if stats is None {
                    Some(BodyError::LoadFailed)
                } else {
                    old(self).body_error
                })
                &&& final(self).backup_node == old(self).backup_node
                &&& (old(self).bench.use_logs_for_trace ==> final(self).phase
                    == Phase::FetchingLogTrace && final(self).live_trace == live && (
                action matches Action::FetchLogTrace(w) && w.delay_secs == BUFFER_SECS
                    && w.capture_secs == TRACE_CAPTURE_SECS))
                &&& (!old(self).bench.use_logs_for_trace && stats is None ==> final(self).phase
                    == Phase::Reverting && final(self).reverts_attempted == 1 && (
                action matches Action::RevertNodes(nodes, cancel) && nodes@ == old(
                    self,
                ).bench.down_validators@ && cancel == (old(self).backup_node is Some)))
                &&& (!old(self).bench.use_logs_for_trace && stats is Some ==> final(self).phase
                    == Phase::Reporting && (action matches Action::Report(plan)
                    && report_plan_matches(*final(self), raw_view(live), plan)))
            }),
            old(self).phase is FetchingLogTrace ==> (event matches Event::LogTraceDone(fetched)
                ==> {
                &&& final(self).stats == old(self).stats
                &&& final(self).body_error == old(self).body_error
                &&& final(self).backup_node == old(self).backup_node
                &&& (old(self).stats is None ==> final(self).phase == Phase::Reverting
                    && final(self).reverts_attempted == 1 && (action matches Action::RevertNodes(
                    nodes,
                    cancel,
                ) && nodes@ == old(self).bench.down_validators@ && cancel == (
                old(self).backup_node is Some)))
                &&& (old(self).stats is Some ==> final(self).phase == Phase::Reporting && (
                action matches Action::Report(plan) && report_plan_matches(
                    *final(self),
                    raw_view(fetched),
                    plan,
                )))
            }),
            (old(self).phase is Reporting && event is ReportDone) ==> *final(self)
                == (ExperimentRun { phase: Phase::Reverting, reverts_attempted: 1, ..*old(self) })
                && (action matches Action::RevertNodes(nodes, cancel) && nodes@
                == old(self).bench.down_validators@ && cancel == (old(self).backup_node is Some)),
            old(self).phase is Reverting ==> (event matches Event::RestartsDone(ok)
                ==> *final(self) == (ExperimentRun { phase: Phase::Done, ..*old(self) })
                && (action matches Action::Finish(outcome) && outcome
                == (RunOutcome { body_error: old(self).body_error, revert_failed: !ok }))),
    {
        match (&self.phase, event) {
            (Phase::Built, Event::Started) => {
                self.phase = Phase::Injecting;
                Action::StopNodes(clone_instances(&self.bench.down_validators))
            },
            (Phase::Injecting, Event::StopsDone(ok)) => {
                if ok {
                    match self.bench.maybe_backup_node() {
                        Ok(node) => {
                            self.backup_node = node;
                            self.backup_unavailable = false;
                        },
                        Err(()) => {
                            self.backup_node = None;
                            self.backup_unavailable = true;
                        },
                    }
                    let targets = if self.emit_to_validator {
                        clone_instances(&self.bench.up_validators)
                    } else {
                        clone_instances(&self.bench.up_fullnodes)
                    };
                    let rate = match self.bench.tps {
                        Some(t) => RateSpec::Fixed(t),
                        None => RateSpec::GlobalDefault,
                    };
                    let trace_plan = if self.bench.trace {
                        Some(
                            TraceWindow {
                                delay_secs: BUFFER_SECS,
                                capture_secs: TRACE_CAPTURE_SECS,
                            },
                        )
                    } else {
                        None
                    };
                    let backup_node = match &self.backup_node {
                        Some(n) => Some(n.clone()),
                        None => None,
                    };
                    let plan = LoadPlan {
                        request: EmitJobRequest { targets, rate },
                        window_secs: self.bench.duration_secs + 2 * BUFFER_SECS,
                        trace_plan,
                        backup_node,
                    };
                    self.phase = Phase::Running;
                    Action::RunLoad(plan)
                } else {
                    self.body_error = Some(BodyError::InjectionFailed);
                    self.revert_action()
                }
            },
            (Phase::Running, Event::LoadAndTraceDone(stats, live)) => {
                if stats.is_none() {
                    self.body_error = Some(BodyError::LoadFailed);
                }
                self.stats = stats;
                if self.bench.use_logs_for_trace {
                    self.live_trace = live;
                    self.phase = Phase::FetchingLogTrace;
                    Action::FetchLogTrace(
                        TraceWindow { delay_secs: BUFFER_SECS, capture_secs: TRACE_CAPTURE_SECS },
                    )
                } else {
                    self.finish_running(live)
                }
            },
            (Phase::FetchingLogTrace, Event::LogTraceDone(fetched)) => {
                // A requested log-index fetch overrides the live capture,
                // even by failing: the live result is dropped either way.
                self.live_trace = None;
                self.finish_running(fetched)
            },
            (Phase::Reporting, Event::ReportDone) => self.revert_action(),
            (Phase::Reverting, Event::RestartsDone(ok)) => {
                self.phase = Phase::Done;
                Action::Finish(RunOutcome { body_error: self.body_error, revert_failed: !ok })
            },
            _ => Action::Ignore,
        }
    }
}

/// Law: reversion is attempted exactly once per run. In every valid
/// state the reversion has been handed out at most once, and a run that
/// has reached its end has handed it out exactly once.
pub proof fn lemma_revert_exactly_once(s: ExperimentRun)
    requires
        s.inv(),
    ensures
        s.reverts_attempted <= 1,
        s.phase is Done ==> s.reverts_attempted == 1,
{
}

/// Whether a backup command termination message reports the kill signal
/// that cleanup cancellation sends, rather than a real failure.
pub fn backup_termination_expected(msg: &String) -> (r: bool)
    ensures
        r == (msg@.len() >= "exit code Some(137)"@.len() && msg@.subrange(
            msg@.len() - "exit code Some(137)"@.len(),
            msg@.len() as int,
        ) == "exit code Some(137)"@),
{
    let suffix = "exit code Some(137)";
    let n = msg.as_str().unicode_len();
    let k = suffix.unicode_len();
    if n < k {
        false
    } else {
        let tail = msg.as_str().substring_char(n - k, n);
        let t = String::from_str(tail);
        let s = String::from_str(suffix);
        t.eq(&s)
    }
}

} // verus!
