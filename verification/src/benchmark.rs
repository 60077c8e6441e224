//! The built experiment: the topology partition derived from a snapshot
//! and the configuration, with its label, deadline, and backup policy.

use vstd::prelude::*;
use crate::label::{label_spec, render_label};
use crate::outside::random_below;
use crate::params::PerformanceBenchmarkParams;
use crate::topology::{contains_name, has_name, matched_fullnodes, matching_fullnodes,
    split_n_validators_random, Cluster, Instance};

verus! {

/// Appends the name unless an equal name is already present.
fn push_name_if_absent(r: &mut Vec<String>, name: &String)
    ensures
        contains_name(old(r)@, name@) ==> final(r)@ == old(r)@,
        !contains_name(old(r)@, name@) ==> final(r)@ == old(r)@.push(*name),
{
    let mut k: usize = 0;
    while k < r.len()
        invariant
            k <= r@.len(),
            forall|a: int| 0 <= a < k ==> #[trigger] r@[a]@ != name@,
        decreases r@.len() - k,
    {
        if r[k].eq(name) {
            return;
        }
        k = k + 1;
    }
    r.push(name.clone());
}

/// One performance-benchmark experiment, ready to run: the partition of
/// the validators into the set to stop and the set to drive, the paired
/// fullnodes of the survivors, and the run configuration.
pub struct PerformanceBenchmark {
    pub down_validators: Vec<Instance>,
    pub up_validators: Vec<Instance>,
    pub up_fullnodes: Vec<Instance>,
    pub percent_nodes_down: usize,
    pub duration_secs: u64,
    pub trace: bool,
    pub tps: Option<u64>,
    pub use_logs_for_trace: bool,
    pub backup: bool,
}

impl PerformanceBenchmark {
    /// The built experiment is valid: its percentage is a percentage and
    /// its duration leaves the deadline and window arithmetic in range.
    pub open spec fn wf(self) -> bool {
        self.percent_nodes_down <= 100 && self.duration_secs <= crate::params::MAX_DURATION_SECS
    }

    /// The set of names of the validators this experiment takes down:
    /// each down validator's name appears, each name once, and nothing
    /// else. With `topology::lemma_split_names_disjoint`, a snapshot
    /// that lists no name twice keeps these names apart from the up
    /// validators' names.
    pub fn affected_validators(&self) -> (r: Vec<String>)
        ensures
            forall|a: int, b: int| 0 <= a < b < r@.len() ==> r@[a]@ != r@[b]@,
            forall|a: int| 0 <= a < r@.len() ==> has_name(self.down_validators@, #[trigger] r@[a]@),
            forall|j: int|
                0 <= j < self.down_validators@.len() ==> contains_name(
                    r@,
                    #[trigger] self.down_validators@[j].peer_name@,
                ),
    {
        let mut r: Vec<String> = Vec::new();
        let mut i: usize = 0;
        while i < self.down_validators.len()
            invariant
                i <= self.down_validators@.len(),
                forall|a: int, b: int| 0 <= a < b < r@.len() ==> r@[a]@ != r@[b]@,
                forall|a: int|
                    0 <= a < r@.len() ==> has_name(self.down_validators@, #[trigger] r@[a]@),
                forall|j: int|
                    0 <= j < i ==> contains_name(
                        r@,
                        #[trigger] self.down_validators@[j].peer_name@,
                    ),
            decreases self.down_validators@.len() - i,
        {
            let name = &self.down_validators[i].peer_name;
            let ghost r_before = r@;
            push_name_if_absent(&mut r, name);
            proof {
                let down = self.down_validators@;
                if contains_name(r_before, name@) {
                    assert(r@ == r_before);
                } else {
                    assert(r@ == r_before.push(*name));
                    assert(r@[r@.len() - 1] == *name);
                    assert(down[i as int].peer_name@ == name@);
                    assert(has_name(down, name@));
                }
                assert(contains_name(r@, name@)) by {
                    if contains_name(r_before, name@) {
                        let a = choose|a: int|
                            0 <= a < r_before.len() && #[trigger] r_before[a]@ == name@;
                        assert(r@[a]@ == name@);
                    } else {
                        assert(r@[r@.len() - 1]@ == name@);
                    }
                }
                assert forall|a: int, b: int| 0 <= a < b < r@.len() implies r@[a]@ != r@[b]@ by {
                    if b < r_before.len() {
                        assert(r@[a] == r_before[a] && r@[b] == r_before[b]);
                    } else {
                        assert(r@[a] == r_before[a] && r@[b]@ == name@);
                        assert(!contains_name(r_before, name@));
                    }
                }
                assert forall|a: int| 0 <= a < r@.len() implies has_name(
                    down,
                    #[trigger] r@[a]@,
                ) by {
                    if a < r_before.len() {
                        assert(r@[a] == r_before[a]);
                    } else {
                        assert(r@[a]@ == name@);
                    }
                }
                assert forall|j: int| 0 <= j < i + 1 implies contains_name(
                    r@,
                    #[trigger] down[j].peer_name@,
                ) by {
                    if j < i {
                        let a = choose|a: int|
                            0 <= a < r_before.len() && #[trigger] r_before[a]@
                                == down[j].peer_name@;
                        assert(r@[a]@ == down[j].peer_name@);
                    } else {
                        assert(down[j].peer_name@ == name@);
                    }
                }
            }
            i = i + 1;
        }
        r
    }

    /// The advisory wall-clock budget for the whole run.
    pub fn deadline_secs(&self) -> (r: u64)
        requires
            self.wf(),
        ensures
            r == 600 + self.duration_secs,
    {
        600 + self.duration_secs
    }

    /// The experiment's human-readable label: the fixed rate if one is
    /// set, "all up" when no nodes go down, else the percentage down.
    pub fn label(&self) -> (r: String)
        ensures
            r@ == label_spec(self.tps, self.percent_nodes_down as nat),
    {
        render_label(self.tps, self.percent_nodes_down as u64)
    }

    /// The node the backup runs on, if a backup is wanted at all: one up
    /// validator chosen at random. When a backup is wanted but no
    /// validator is up, there is nothing to run it on, which the run
    /// treats as a soft condition, not a fatal one.
    pub fn maybe_backup_node(&self) -> (r: Result<Option<Instance>, ()>)
        ensures
            !self.backup ==> r == Ok::<Option<Instance>, ()>(None),
            self.backup && self.up_validators@.len() == 0 ==> r is Err,
            self.backup && self.up_validators@.len() > 0 ==> r is Ok && r->Ok_0 is Some && exists|
                i: int,
            | 0 <= i < self.up_validators@.len() && r->Ok_0 == Some(#[trigger] self.up_validators@[i]),
    {
        if !self.backup {
            return Ok(None);
        }
        if self.up_validators.len() == 0 {
            return Err(());
        }
        let i = random_below(self.up_validators.len());
        Ok(Some(self.up_validators[i].clone()))
    }
}

impl PerformanceBenchmarkParams {
    /// Derives the experiment from a cluster snapshot: takes
    /// `floor(validators * percent / 100)` validators down at random, the
    /// rest stay up, and each up validator contributes the first fullnode
    /// of its group. With `topology::lemma_split_is_partition`, the down
    /// and up sets are disjoint and together are exactly the snapshot.
    pub fn build(self, cluster: Cluster) -> (r: PerformanceBenchmark)
        requires
            self.wf(),
            cluster.validator_instances@.len() * self.percent_nodes_down <= usize::MAX,
        ensures
            r.wf(),
            r.percent_nodes_down == self.percent_nodes_down,
            r.duration_secs == self.duration,
            r.trace == self.trace,
            r.tps == self.tps,
            r.use_logs_for_trace == self.use_logs_for_trace,
            r.backup == self.backup,
            r.down_validators@.len() == cluster.validator_instances@.len()
                * self.percent_nodes_down / 100,
            r.up_validators@.len() == cluster.validator_instances@.len()
                - r.down_validators@.len(),
            r.down_validators@.to_multiset().add(r.up_validators@.to_multiset())
                == cluster.validator_instances@.to_multiset(),
            r.up_fullnodes@ == matched_fullnodes(r.up_validators@, cluster.fullnode_instances@),
    {
        let num_nodes = cluster.validator_instances.len();
        let nodes_down = (num_nodes * self.percent_nodes_down) / 100;
        proof {
            assert(num_nodes * self.percent_nodes_down <= num_nodes * 100) by (nonlinear_arith)
                requires
                    self.percent_nodes_down <= 100,
                    num_nodes >= 0,
            ;
            vstd::arithmetic::div_mod::lemma_div_is_ordered(
                (num_nodes * self.percent_nodes_down) as int,
                (num_nodes * 100) as int,
                100,
            );
            assert(num_nodes * 100 / 100 == num_nodes) by (nonlinear_arith);
        }
        let (down, up) = split_n_validators_random(cluster.validator_instances, nodes_down);
        let up_fullnodes = matching_fullnodes(&up, &cluster.fullnode_instances);
        PerformanceBenchmark {
            down_validators: down,
            up_validators: up,
            up_fullnodes,
            percent_nodes_down: self.percent_nodes_down,
            duration_secs: self.duration,
            trace: self.trace,
            tps: self.tps,
            use_logs_for_trace: self.use_logs_for_trace,
            backup: self.backup,
        }
    }
}

} // verus!
