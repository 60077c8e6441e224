//! Trace capture normalization: tagging events with their source node,
//! merging per-node lists into one timestamp-ordered sequence, resolving
//! which capture source wins, and picking a representative traced node.

use vstd::prelude::*;
use crate::outside::random_below;

verus! {

broadcast use vstd::seq_lib::group_to_multiset_ensures, vstd::multiset::group_multiset_axioms;

/// What the experiment reads out of one captured trace event's payload:
/// whether it records a request submission, whether it carries a
/// transaction-identifying prefix, and the peer tag that normalization
/// guarantees to be present.
pub struct TracePayload {
    pub is_submit: bool,
    pub txn_prefixed: bool,
    pub peer: Option<String>,
}

/// One captured trace event.
pub struct TraceEvent {
    pub timestamp: u64,
    pub payload: TracePayload,
}

impl Clone for TracePayload {
    fn clone(&self) -> (r: Self)
        ensures
            r == *self,
    {
        TracePayload {
            is_submit: self.is_submit,
            txn_prefixed: self.txn_prefixed,
            peer: match &self.peer {
                Some(p) => Some(p.clone()),
                None => None,
            },
        }
    }
}

impl Clone for TraceEvent {
    fn clone(&self) -> (r: Self)
        ensures
            r == *self,
    {
        TraceEvent { timestamp: self.timestamp, payload: self.payload.clone() }
    }
}

/// Every event carries a peer tag.
pub open spec fn normalized(events: Seq<TraceEvent>) -> bool {
    forall|i: int| 0 <= i < events.len() ==> events[i].payload.peer is Some
}

/// Tags each captured event with its source node as the peer, whatever
/// the capture origin wrote there; everything else is kept.
pub fn normalize_events(raw: &Vec<(String, TraceEvent)>) -> (r: Vec<TraceEvent>)
    ensures
        r@.len() == raw@.len(),
        forall|i: int|
            0 <= i < raw@.len() ==> r@[i].timestamp == raw@[i].1.timestamp
                && r@[i].payload.is_submit == raw@[i].1.payload.is_submit
                && r@[i].payload.txn_prefixed == raw@[i].1.payload.txn_prefixed && r@[i].payload.peer
                == Some(raw@[i].0),
        normalized(r@),
{
    let mut r: Vec<TraceEvent> = Vec::new();
    let mut i: usize = 0;
    while i < raw.len()
        invariant
            i <= raw@.len(),
            r@.len() == i,
            forall|k: int|
                0 <= k < i ==> r@[k].timestamp == raw@[k].1.timestamp && r@[k].payload.is_submit
                    == raw@[k].1.payload.is_submit && r@[k].payload.txn_prefixed
                    == raw@[k].1.payload.txn_prefixed && r@[k].payload.peer == Some(raw@[k].0),
        decreases raw@.len() - i,
    {
        let node = raw[i].0.clone();
        let ev = &raw[i].1;
        r.push(
            TraceEvent {
                timestamp: ev.timestamp,
                payload: TracePayload {
                    is_submit: ev.payload.is_submit,
                    txn_prefixed: ev.payload.txn_prefixed,
                    peer: Some(node),
                },
            },
        );
        i = i + 1;
    }
    r
}

/// Ordering key of the merge: timestamp first, discovery position as the
/// tie break.
pub open spec fn key_le(a: (TraceEvent, usize), b: (TraceEvent, usize)) -> bool {
    a.0.timestamp < b.0.timestamp || (a.0.timestamp == b.0.timestamp && a.1 <= b.1)
}

/// Sorted under the merge ordering key.
pub open spec fn sorted_pairs(s: Seq<(TraceEvent, usize)>) -> bool {
    forall|i: int, j: int| 0 <= i < j < s.len() ==> key_le(s[i], s[j])
}

/// Compares two events under the merge ordering key.
fn key_le_exec(a: &(TraceEvent, usize), b: &(TraceEvent, usize)) -> (r: bool)
    ensures
        r == key_le(*a, *b),
{
    a.0.timestamp < b.0.timestamp || (a.0.timestamp == b.0.timestamp && a.1 <= b.1)
}

/// Insertion sort of index-tagged events under the merge ordering key.
fn sort_pairs(pairs: Vec<(TraceEvent, usize)>) -> (r: Vec<(TraceEvent, usize)>)
    ensures
        r@.to_multiset() == pairs@.to_multiset(),
        sorted_pairs(r@),
{
    let mut out: Vec<(TraceEvent, usize)> = Vec::new();
    let mut k: usize = 0;
    proof {
        assert(pairs@.take(0) =~= Seq::<(TraceEvent, usize)>::empty());
        assert(out@.to_multiset() =~= pairs@.take(0).to_multiset());
    }
    while k < pairs.len()
        invariant
            k <= pairs@.len(),
            out@.to_multiset() == pairs@.take(k as int).to_multiset(),
            sorted_pairs(out@),
        decreases pairs@.len() - k,
    {
        let x = (pairs[k].0.clone(), pairs[k].1);
        let mut p: usize = 0;
        while p < out.len() && key_le_exec(&out[p], &x)
            invariant
                p <= out@.len(),
                forall|q: int| 0 <= q < p ==> key_le(out@[q], x),
                sorted_pairs(out@),
            decreases out@.len() - p,
        {
            p = p + 1;
        }
        let ghost out_before = out@;
        out.insert(p, x);
        proof {
            out_before.insert_ensures(p as int, x);
            assert(sorted_pairs(out@)) by {
                assert forall|i: int, j: int| 0 <= i < j < out@.len() implies key_le(
                    out@[i],
                    out@[j],
                ) by {
                    if i < p && j < p {
                        assert(out@[i] == out_before[i] && out@[j] == out_before[j]);
                    } else if i < p && j == p {
                        assert(out@[i] == out_before[i] && out@[j] == x);
                    } else if i < p && j > p {
                        assert(out@[i] == out_before[i] && out@[j] == out_before[j - 1]);
                    } else if i == p && j > p {
                        assert(out@[i] == x && out@[j] == out_before[j - 1]);
                        assert(p < out_before.len() && !key_le(out_before[p as int], x));
                        assert(key_le(out_before[p as int], out_before[j - 1]) || p == j - 1);
                    } else {
                        assert(out@[i] == out_before[i - 1] && out@[j] == out_before[j - 1]);
                    }
                }
            }
            assert(out@.to_multiset() == out_before.to_multiset().insert(x));
            assert(pairs@.take(k as int + 1) =~= pairs@.take(k as int).push(pairs@[k as int]));
            assert(x == pairs@[k as int]);
            assert(out@.to_multiset() == pairs@.take(k as int + 1).to_multiset());
        }
        k = k + 1;
    }
    proof {
        assert(pairs@.take(pairs@.len() as int) =~= pairs@);
    }
    out
}

/// A sequence position holding the same value at two places counts it at
/// least twice.
proof fn lemma_count_at_least_two<A>(s: Seq<A>, i: int, j: int)
    requires
        0 <= i < j < s.len(),
        s[i] == s[j],
    ensures
        s.to_multiset().count(s[i]) >= 2,
{
    assert(s.remove(i).to_multiset() == s.to_multiset().remove(s[i]));
    s.remove_ensures(i);
    assert(s.remove(i)[j - 1] == s[j]);
    assert(s.remove(i).contains(s[i]));
    assert(s.remove(i).to_multiset().count(s[i]) > 0);
}

/// Merges captured events into one sequence, stably sorted by timestamp
/// ascending: the result is a rearrangement of the input in which an
/// earlier timestamp never follows a later one, and events with equal
/// timestamps keep their discovery order.
pub fn sort_events_by_timestamp(events: &Vec<TraceEvent>) -> (r: Vec<TraceEvent>)
    ensures
        r@.len() == events@.len(),
        forall|i: int, j: int|
            0 <= i < j < r@.len() ==> r@[i].timestamp <= r@[j].timestamp,
        exists|perm: Seq<int>|
            #![trigger perm.len()]
            {
                &&& perm.len() == r@.len()
                &&& (forall|k: int|
                    0 <= k < perm.len() ==> 0 <= #[trigger] perm[k] < events@.len() && r@[k]
                        == events@[perm[k]])
                &&& (forall|i: int, j: int|
                    0 <= i < j < perm.len() ==> #[trigger] perm[i] != #[trigger] perm[j])
                &&& (forall|i: int, j: int|
                    0 <= i < j < perm.len() && r@[i].timestamp == r@[j].timestamp
                        ==> #[trigger] perm[i] < #[trigger] perm[j])
            },
{
    let ghost n = events@.len() as int;
    let mut pairs: Vec<(TraceEvent, usize)> = Vec::new();
    let mut i: usize = 0;
    while i < events.len()
        invariant
            i <= events@.len(),
            pairs@.len() == i,
            forall|k: int| 0 <= k < i ==> #[trigger] pairs@[k] == (events@[k], k as usize),
        decreases events@.len() - i,
    {
        pairs.push((events[i].clone(), i));
        i = i + 1;
    }
    let ghost pairs0 = pairs@;
    proof {
        assert(pairs0.no_duplicates()) by {
            assert forall|a: int, b: int|
                0 <= a < pairs0.len() && 0 <= b < pairs0.len() && a != b implies pairs0[a]
                != pairs0[b] by {
                assert(pairs0[a].1 == a as usize && pairs0[b].1 == b as usize);
            }
        }
        pairs0.lemma_multiset_has_no_duplicates();
    }
    let sorted = sort_pairs(pairs);
    let mut r: Vec<TraceEvent> = Vec::new();
    let mut j: usize = 0;
    while j < sorted.len()
        invariant
            j <= sorted@.len(),
            r@.len() == j,
            forall|k: int| 0 <= k < j ==> r@[k] == sorted@[k].0,
        decreases sorted@.len() - j,
    {
        r.push(sorted[j].0.clone());
        j = j + 1;
    }
    proof {
        // Every sorted pair is one of the input pairs: the event is the
        // one at its recorded discovery index.
        assert forall|k: int| 0 <= k < sorted@.len() implies 0 <= #[trigger] sorted@[k].1 < n
            && sorted@[k].0 == events@[sorted@[k].1 as int] by {
            assert(sorted@.contains(sorted@[k]));
            assert(sorted@.to_multiset().count(sorted@[k]) > 0);
            assert(pairs0.to_multiset().count(sorted@[k]) > 0);
            assert(pairs0.contains(sorted@[k]));
            let q = choose|q: int| 0 <= q < pairs0.len() && pairs0[q] == sorted@[k];
            assert(pairs0[q] == (events@[q], q as usize));
        }
        assert(sorted@.to_multiset().len() == pairs0.to_multiset().len());
        assert(sorted@.len() == pairs0.len());
        let perm = Seq::new(sorted@.len(), |k: int| sorted@[k].1 as int);
        assert forall|a: int, b: int| 0 <= a < b < perm.len() implies #[trigger] perm[a]
            != #[trigger] perm[b] by {
            if sorted@[a].1 == sorted@[b].1 {
                assert(sorted@[a] == sorted@[b]);
                lemma_count_at_least_two(sorted@, a, b);
                assert(pairs0.to_multiset().count(sorted@[a]) >= 2);
                assert(pairs0.contains(sorted@[a]));
            }
        }
        assert forall|a: int, b: int|
            0 <= a < b < perm.len() && r@[a].timestamp == r@[b].timestamp implies #[trigger] perm[a]
            < #[trigger] perm[b] by {
            assert(key_le(sorted@[a], sorted@[b]));
            assert(perm[a] != perm[b]);
            assert(sorted@[a].1 != sorted@[b].1);
        }
        assert forall|a: int, b: int| 0 <= a < b < r@.len() implies r@[a].timestamp
            <= r@[b].timestamp by {
            assert(key_le(sorted@[a], sorted@[b]));
        }
        assert(perm.len() == r@.len() && (forall|k: int|
            0 <= k < perm.len() ==> 0 <= #[trigger] perm[k] < events@.len() && r@[k]
                == events@[perm[k]]) && (forall|a: int, b: int|
            0 <= a < b < perm.len() ==> #[trigger] perm[a] != #[trigger] perm[b]) && (forall|
            a: int,
            b: int,
        |
            0 <= a < b < perm.len() && r@[a].timestamp == r@[b].timestamp ==> #[trigger] perm[a]
                < #[trigger] perm[b]));
    }
    r
}

/// The merged trace of a capture: a rearrangement of the captured
/// events in which every event carries its source node as the peer tag,
/// timestamps never descend, and events with equal timestamps keep
/// their discovery order.
pub open spec fn merged_trace(raw: Seq<(String, TraceEvent)>, sev: Seq<TraceEvent>) -> bool {
    &&& sev.len() == raw.len()
    &&& (forall|a: int, b: int| 0 <= a < b < sev.len() ==> sev[a].timestamp <= sev[b].timestamp)
    &&& exists|perm: Seq<int>|
        #![trigger perm.len()]
        {
            &&& perm.len() == sev.len()
            &&& (forall|k: int|
                0 <= k < perm.len() ==> 0 <= #[trigger] perm[k] < raw.len() && sev[k].timestamp
                    == raw[perm[k]].1.timestamp && sev[k].payload.is_submit
                    == raw[perm[k]].1.payload.is_submit && sev[k].payload.txn_prefixed
                    == raw[perm[k]].1.payload.txn_prefixed && sev[k].payload.peer == Some(
                    raw[perm[k]].0,
                ))
            &&& (forall|i: int, j: int|
                0 <= i < j < perm.len() ==> #[trigger] perm[i] != #[trigger] perm[j])
            &&& (forall|i: int, j: int|
                0 <= i < j < perm.len() && sev[i].timestamp == sev[j].timestamp
                    ==> #[trigger] perm[i] < #[trigger] perm[j])
        }
}

/// An event the representative pick may anchor on: a request submission
/// carrying a transaction-identifying prefix, with a peer tag present.
pub open spec fn is_candidate(e: TraceEvent) -> bool {
    e.payload.is_submit && e.payload.txn_prefixed && e.payload.peer is Some
}

/// Picks the node of one event, uniformly at random, among the events
/// whose payload records a request submission with a
/// transaction-identifying prefix. Returns nothing exactly when no event
/// qualifies.
pub fn random_node(events: &Vec<TraceEvent>) -> (r: Option<String>)
    ensures
        r is Some <==> exists|i: int| 0 <= i < events@.len() && is_candidate(#[trigger] events@[i]),
        r is Some ==> exists|i: int|
            0 <= i < events@.len() && is_candidate(#[trigger] events@[i]) && events@[i].payload.peer
                == Some(r->0),
{
    let mut candidates: Vec<usize> = Vec::new();
    let mut i: usize = 0;
    while i < events.len()
        invariant
            i <= events@.len(),
            forall|k: int|
                0 <= k < candidates@.len() ==> #[trigger] candidates@[k] < i && is_candidate(
                    events@[candidates@[k] as int],
                ),
            candidates@.len() > 0 <==> exists|k: int|
                0 <= k < i && is_candidate(#[trigger] events@[k]),
        decreases events@.len() - i,
    {
        let e = &events[i];
        if e.payload.is_submit && e.payload.txn_prefixed && e.payload.peer.is_some() {
            candidates.push(i);
        }
        i = i + 1;
    }
    if candidates.len() == 0 {
        None
    } else {
        let pick = candidates[random_below(candidates.len())];
        match &events[pick].payload.peer {
            Some(node) => Some(node.clone()),
            None => None,
        }
    }
}

/// Which capture wins: a requested log-index fetch overrides whatever the
/// live path produced, even by failing; otherwise the live result stands.
pub fn resolve_trace(
    live: Option<Vec<(String, TraceEvent)>>,
    use_logs_for_trace: bool,
    log_fetch: Option<Vec<(String, TraceEvent)>>,
) -> (r: Option<Vec<(String, TraceEvent)>>)
    ensures
        use_logs_for_trace ==> r == log_fetch,
        !use_logs_for_trace ==> r == live,
{
    if use_logs_for_trace {
        log_fetch
    } else {
        live
    }
}

} // verus!
