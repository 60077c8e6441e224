use perf_benchmark::controller::backup_termination_expected;
use perf_benchmark::label::{render_label, u64_to_dec};
use perf_benchmark::params::PerformanceBenchmarkParams;
use perf_benchmark::report::{report_emission, report_window};
use perf_benchmark::topology::{split_n_validators_random, Cluster, Instance};

fn instance(name: &str, group: u64) -> Instance {
    Instance { peer_name: String::from(name), validator_group: group }
}

#[test]
fn decimal_rendering_is_exact() {
    assert_eq!(u64_to_dec(0), "0");
    assert_eq!(u64_to_dec(7), "7");
    assert_eq!(u64_to_dec(10), "10");
    assert_eq!(u64_to_dec(1234), "1234");
    assert_eq!(u64_to_dec(1000000), "1000000");
}

#[test]
fn labels_are_exact() {
    assert_eq!(render_label(Some(500), 0), "fixed tps 500");
    assert_eq!(render_label(Some(500), 25), "fixed tps 500");
    assert_eq!(render_label(None, 0), "all up");
    assert_eq!(render_label(None, 25), "25% down");
    assert_eq!(render_label(None, 100), "100% down");
}

#[test]
fn report_window_subtracts_the_buffer_from_both_ends() {
    // window 240 = 120s duration + 2*60s buffer; the query range drops a
    // buffer at each end, leaving exactly the 120s in the middle.
    let w = report_window(1000, 240, 60).expect("the clock reading is sane");
    assert_eq!(w.end_secs, 940);
    assert_eq!(w.start_secs, 820);
    assert_eq!(w.end_secs - w.start_secs, 120);
}

#[test]
fn report_window_rejects_a_clock_before_the_window() {
    assert!(report_window(10, 240, 60).is_none());
    assert!(report_window(-5, 240, 60).is_none());
}

#[test]
fn report_emission_decisions() {
    let e = report_emission(true, true, true);
    assert!(e.emit_avg_txns_per_block);
    assert!(e.emit_txn_stats);
    assert!(e.emit_backup_metric);
    assert!(e.emit_backup_text);
    assert!(!e.backup_value_defaulted);

    let e = report_emission(true, false, false);
    assert!(!e.emit_avg_txns_per_block);
    assert!(e.emit_txn_stats);
    assert!(e.emit_backup_metric);
    assert!(e.backup_value_defaulted);

    let e = report_emission(false, false, true);
    assert!(e.emit_txn_stats);
    assert!(!e.emit_backup_metric);
    assert!(!e.emit_backup_text);
    assert!(!e.backup_value_defaulted);
}

#[test]
fn backup_kill_signal_is_expected_termination() {
    let killed = String::from("command terminated: exit code Some(137)");
    assert!(backup_termination_expected(&killed));
    let failed = String::from("command terminated: exit code Some(1)");
    assert!(!backup_termination_expected(&failed));
    let short = String::from("oops");
    assert!(!backup_termination_expected(&short));
    let exact = String::from("exit code Some(137)");
    assert!(backup_termination_expected(&exact));
}

#[test]
fn split_sizes_follow_the_floor_rule() {
    // |down| = floor(size * percent / 100) over a range of inputs.
    for size in 0..8u64 {
        for percent in [0usize, 1, 25, 33, 50, 99, 100] {
            let mut validators = Vec::new();
            for g in 0..size {
                validators.push(instance(&format!("v{}", g), g));
            }
            let cluster =
                Cluster { validator_instances: validators, fullnode_instances: Vec::new() };
            let params = PerformanceBenchmarkParams::new_nodes_down(percent);
            let bench = params.build(cluster);
            let expected = (size as usize * percent) / 100;
            assert_eq!(bench.down_validators.len(), expected);
            assert_eq!(bench.up_validators.len(), size as usize - expected);
        }
    }
}

#[test]
fn split_is_a_partition_of_the_names() {
    let mut validators = Vec::new();
    for g in 0..6u64 {
        validators.push(instance(&format!("v{}", g), g));
    }
    let (down, up) = split_n_validators_random(validators, 2);
    assert_eq!(down.len(), 2);
    assert_eq!(up.len(), 4);
    let mut names: Vec<String> = down
        .iter()
        .chain(up.iter())
        .map(|i| i.peer_name.clone())
        .collect();
    names.sort();
    let expected: Vec<String> = (0..6u64).map(|g| format!("v{}", g)).collect();
    assert_eq!(names, expected);
    for d in &down {
        assert!(!up.iter().any(|u| u.peer_name == d.peer_name));
    }
}

#[test]
fn matched_fullnodes_follow_up_validator_groups() {
    let validators = vec![instance("v0", 0), instance("v1", 1), instance("v2", 2)];
    let fullnodes = vec![instance("f1", 1), instance("f1bis", 1), instance("f2", 2)];
    let cluster = Cluster { validator_instances: validators, fullnode_instances: fullnodes };
    let params = PerformanceBenchmarkParams::new_nodes_down(0);
    let bench = params.build(cluster);
    // v0 has no fullnode and contributes nothing; v1 takes the first
    // fullnode of its group; v2 takes its own.
    let names: Vec<&str> =
        bench.up_fullnodes.iter().map(|i| i.peer_name.as_str()).collect();
    assert_eq!(names, vec!["f1", "f2"]);
}

#[test]
fn duration_carries_into_the_deadline() {
    let mut params = PerformanceBenchmarkParams::new_nodes_down(0);
    params.duration = 300;
    let cluster = Cluster { validator_instances: Vec::new(), fullnode_instances: Vec::new() };
    let bench = params.build(cluster);
    assert_eq!(bench.deadline_secs(), 900);
}
