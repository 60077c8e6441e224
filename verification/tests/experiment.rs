use perf_benchmark::benchmark::PerformanceBenchmark;
use perf_benchmark::controller::{
    Action, BodyError, Event, ExperimentRun, Phase, RateSpec, TxStats,
};
use perf_benchmark::params::PerformanceBenchmarkParams;
use perf_benchmark::topology::{Cluster, Instance};

fn instance(name: &str, group: u64) -> Instance {
    Instance { peer_name: String::from(name), validator_group: group }
}

fn cluster_of(n: u64) -> Cluster {
    let mut validators = Vec::new();
    let mut fullnodes = Vec::new();
    for g in 0..n {
        validators.push(instance(&format!("val{}", g), g));
        fullnodes.push(instance(&format!("fn{}", g), g));
    }
    Cluster { validator_instances: validators, fullnode_instances: fullnodes }
}

fn stats() -> TxStats {
    TxStats { submitted: 1000, committed: 990, expired: 10 }
}

#[test]
fn quarter_down_scenario() {
    // size=4 validators, 25% down, duration 120s.
    let params = PerformanceBenchmarkParams::new_nodes_down(25);
    let bench = params.build(cluster_of(4));
    assert_eq!(bench.down_validators.len(), 1);
    assert_eq!(bench.up_validators.len(), 3);
    assert_eq!(bench.label(), "25% down");
    assert_eq!(bench.deadline_secs(), 720);
    let stopped = bench.down_validators[0].peer_name.clone();

    let mut run = ExperimentRun::new(bench, true);
    let action = run.step(Event::Started);
    let nodes = match action {
        Action::StopNodes(nodes) => nodes,
        _ => panic!("expected a stop action"),
    };
    assert_eq!(nodes.len(), 1);
    assert_eq!(nodes[0].peer_name, stopped);

    let action = run.step(Event::StopsDone(true));
    let plan = match action {
        Action::RunLoad(plan) => plan,
        _ => panic!("expected a load action"),
    };
    // Load driven against the remaining 3 for 120+120=240s.
    assert_eq!(plan.request.targets.len(), 3);
    assert_eq!(plan.window_secs, 240);
    assert!(plan.trace_plan.is_none());
    assert!(plan.backup_node.is_none());

    let action = run.step(Event::LoadAndTraceDone(Some(stats()), None));
    let report = match action {
        Action::Report(plan) => plan,
        _ => panic!("expected a report action"),
    };
    assert_eq!(report.label, "25% down");
    assert_eq!(report.window_secs, 240);
    assert!(!report.backup_ran);

    // The node is restarted after reporting.
    let action = run.step(Event::ReportDone);
    let (nodes, cancel) = match action {
        Action::RevertNodes(nodes, cancel) => (nodes, cancel),
        _ => panic!("expected a revert action"),
    };
    assert_eq!(nodes.len(), 1);
    assert_eq!(nodes[0].peer_name, stopped);
    assert!(!cancel);
    assert_eq!(run.reverts_attempted, 1);

    let action = run.step(Event::RestartsDone(true));
    let outcome = match action {
        Action::Finish(outcome) => outcome,
        _ => panic!("expected the run to finish"),
    };
    assert!(outcome.succeeded());
    assert_eq!(run.phase, Phase::Done);
    assert_eq!(run.reverts_attempted, 1);

    // A stray late event does not trigger a second reversion.
    assert!(matches!(run.step(Event::RestartsDone(true)), Action::Ignore));
    assert_eq!(run.reverts_attempted, 1);
}

#[test]
fn fixed_tps_no_nodes_down_scenario() {
    // tps=Some(500), 0% down: no stop/restart calls, label "fixed tps 500".
    let params = PerformanceBenchmarkParams::new_fixed_tps(0, 500);
    let bench = params.build(cluster_of(4));
    assert_eq!(bench.down_validators.len(), 0);
    assert_eq!(bench.label(), "fixed tps 500");

    let mut run = ExperimentRun::new(bench, true);
    let action = run.step(Event::Started);
    match action {
        Action::StopNodes(nodes) => assert!(nodes.is_empty()),
        _ => panic!("expected a stop action"),
    }
    let action = run.step(Event::StopsDone(true));
    match action {
        Action::RunLoad(plan) => assert_eq!(plan.request.rate, RateSpec::Fixed(500)),
        _ => panic!("expected a load action"),
    }
    run.step(Event::LoadAndTraceDone(Some(stats()), None));
    let action = run.step(Event::ReportDone);
    match action {
        Action::RevertNodes(nodes, _) => assert!(nodes.is_empty()),
        _ => panic!("expected a revert action"),
    }
}

#[test]
fn default_rate_when_tps_unset() {
    let params = PerformanceBenchmarkParams::new_nodes_down(50);
    let bench = params.build(cluster_of(4));
    let mut run = ExperimentRun::new(bench, true);
    run.step(Event::Started);
    match run.step(Event::StopsDone(true)) {
        Action::RunLoad(plan) => assert_eq!(plan.request.rate, RateSpec::GlobalDefault),
        _ => panic!("expected a load action"),
    }
}

#[test]
fn load_targets_fullnodes_when_not_emitting_to_validators() {
    let params = PerformanceBenchmarkParams::new_nodes_down(0);
    let bench = params.build(cluster_of(3));
    let mut run = ExperimentRun::new(bench, false);
    run.step(Event::Started);
    match run.step(Event::StopsDone(true)) {
        Action::RunLoad(plan) => {
            assert_eq!(plan.request.targets.len(), 3);
            assert!(plan.request.targets[0].peer_name.starts_with("fn"));
        },
        _ => panic!("expected a load action"),
    }
}

#[test]
fn trace_enabled_delays_and_captures() {
    let mut params = PerformanceBenchmarkParams::new_nodes_down(0);
    params.trace = true;
    let bench = params.build(cluster_of(2));
    let mut run = ExperimentRun::new(bench, true);
    run.step(Event::Started);
    match run.step(Event::StopsDone(true)) {
        Action::RunLoad(plan) => {
            let t = plan.trace_plan.expect("tracing was enabled");
            assert_eq!(t.delay_secs, 60);
            assert_eq!(t.capture_secs, 5);
        },
        _ => panic!("expected a load action"),
    }
}

#[test]
fn trace_disabled_means_no_delay() {
    // With tracing off there is no capture step and the phase lasts
    // exactly the load window.
    let params = PerformanceBenchmarkParams::new_nodes_down(0);
    let bench = params.build(cluster_of(2));
    let mut run = ExperimentRun::new(bench, true);
    run.step(Event::Started);
    match run.step(Event::StopsDone(true)) {
        Action::RunLoad(plan) => {
            assert!(plan.trace_plan.is_none());
            assert_eq!(plan.window_secs, 240);
        },
        _ => panic!("expected a load action"),
    }
}

#[test]
fn injection_failure_still_reverts() {
    let params = PerformanceBenchmarkParams::new_nodes_down(50);
    let bench = params.build(cluster_of(4));
    let mut run = ExperimentRun::new(bench, true);
    run.step(Event::Started);
    let action = run.step(Event::StopsDone(false));
    match action {
        Action::RevertNodes(nodes, _) => assert_eq!(nodes.len(), 2),
        _ => panic!("expected a revert action after failed injection"),
    }
    assert_eq!(run.body_error, Some(BodyError::InjectionFailed));
    assert_eq!(run.reverts_attempted, 1);
    let action = run.step(Event::RestartsDone(true));
    match action {
        Action::Finish(outcome) => {
            assert!(!outcome.succeeded());
            assert_eq!(outcome.body_error, Some(BodyError::InjectionFailed));
            assert!(!outcome.revert_failed);
        },
        _ => panic!("expected the run to finish"),
    }
}

#[test]
fn load_failure_skips_report_but_reverts() {
    let params = PerformanceBenchmarkParams::new_nodes_down(25);
    let bench = params.build(cluster_of(4));
    let mut run = ExperimentRun::new(bench, true);
    run.step(Event::Started);
    run.step(Event::StopsDone(true));
    let action = run.step(Event::LoadAndTraceDone(None, None));
    match action {
        Action::RevertNodes(nodes, _) => assert_eq!(nodes.len(), 1),
        _ => panic!("expected a revert action after failed load"),
    }
    assert_eq!(run.body_error, Some(BodyError::LoadFailed));
    match run.step(Event::RestartsDone(true)) {
        Action::Finish(outcome) => {
            assert_eq!(outcome.body_error, Some(BodyError::LoadFailed));
            assert!(!outcome.revert_failed);
        },
        _ => panic!("expected the run to finish"),
    }
}

#[test]
fn revert_failure_is_kept_beside_body_error() {
    let params = PerformanceBenchmarkParams::new_nodes_down(25);
    let bench = params.build(cluster_of(4));
    let mut run = ExperimentRun::new(bench, true);
    run.step(Event::Started);
    run.step(Event::StopsDone(true));
    run.step(Event::LoadAndTraceDone(None, None));
    match run.step(Event::RestartsDone(false)) {
        Action::Finish(outcome) => {
            // The body error stays the primary cause; the reversion
            // failure is reported beside it, not instead of it.
            assert_eq!(outcome.body_error, Some(BodyError::LoadFailed));
            assert!(outcome.revert_failed);
            assert!(!outcome.succeeded());
        },
        _ => panic!("expected the run to finish"),
    }
}

#[test]
fn backup_without_up_nodes_fails_soft_and_run_proceeds() {
    // Backup enabled, but every validator goes down: the backup has no
    // node to run on; the run proceeds without backup metrics.
    let params = PerformanceBenchmarkParams::new_nodes_down(100).enable_db_backup();
    let bench = params.build(cluster_of(3));
    assert_eq!(bench.up_validators.len(), 0);
    assert!(bench.maybe_backup_node().is_err());

    let mut run = ExperimentRun::new(bench, true);
    run.step(Event::Started);
    let action = run.step(Event::StopsDone(true));
    match action {
        Action::RunLoad(plan) => assert!(plan.backup_node.is_none()),
        _ => panic!("expected a load action"),
    }
    assert!(run.backup_unavailable);
    let action = run.step(Event::LoadAndTraceDone(Some(stats()), None));
    match action {
        Action::Report(plan) => assert!(!plan.backup_ran),
        _ => panic!("expected a report action"),
    }
    match run.step(Event::ReportDone) {
        Action::RevertNodes(_, cancel) => assert!(!cancel),
        _ => panic!("expected a revert action"),
    }
}

#[test]
fn backup_runs_on_an_up_validator() {
    let params = PerformanceBenchmarkParams::new_nodes_down(25).enable_db_backup();
    let bench = params.build(cluster_of(4));
    let up_names: Vec<String> =
        bench.up_validators.iter().map(|v| v.peer_name.clone()).collect();
    let mut run = ExperimentRun::new(bench, true);
    run.step(Event::Started);
    match run.step(Event::StopsDone(true)) {
        Action::RunLoad(plan) => {
            let node = plan.backup_node.expect("backup was enabled with up validators");
            assert!(up_names.contains(&node.peer_name));
        },
        _ => panic!("expected a load action"),
    }
    run.step(Event::LoadAndTraceDone(Some(stats()), None));
    match run.step(Event::ReportDone) {
        Action::RevertNodes(_, cancel) => assert!(cancel),
        _ => panic!("expected a revert action"),
    }
}

#[test]
fn out_of_phase_events_are_ignored() {
    let params = PerformanceBenchmarkParams::new_nodes_down(25);
    let bench = params.build(cluster_of(4));
    let mut run = ExperimentRun::new(bench, true);
    assert!(matches!(run.step(Event::ReportDone), Action::Ignore));
    assert!(matches!(run.step(Event::RestartsDone(true)), Action::Ignore));
    assert_eq!(run.phase, Phase::Built);
    assert_eq!(run.reverts_attempted, 0);
}

#[test]
fn enable_db_backup_only_sets_backup() {
    let params = PerformanceBenchmarkParams::new_nodes_down(10).enable_db_backup();
    assert!(params.backup);
    assert_eq!(params.percent_nodes_down, 10);
    assert_eq!(params.duration, 120);
    assert!(params.tps.is_none());
    assert!(!params.trace);
    assert!(!params.use_logs_for_trace);
}

#[test]
fn affected_validators_are_the_down_names() {
    let params = PerformanceBenchmarkParams::new_nodes_down(50);
    let bench = params.build(cluster_of(4));
    let affected = bench.affected_validators();
    assert_eq!(affected.len(), 2);
    for name in &affected {
        assert!(bench.down_validators.iter().any(|v| v.peer_name == *name));
    }
    for v in &bench.down_validators {
        assert!(affected.contains(&v.peer_name));
    }
}

#[test]
fn affected_validators_deduplicate_shared_names() {
    let params = PerformanceBenchmarkParams::new_nodes_down(100);
    let mut bench = params.build(cluster_of(3));
    // Two down validators sharing a name count once in the affected set.
    bench.down_validators = vec![
        instance("shared", 0),
        instance("shared", 1),
        instance("other", 2),
    ];
    let affected = bench.affected_validators();
    assert_eq!(affected.len(), 2);
    assert!(affected.contains(&String::from("shared")));
    assert!(affected.contains(&String::from("other")));
}
