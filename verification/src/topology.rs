//! Cluster snapshot and topology selection: which validators go down,
//! which stay up, and which fullnodes pair with the survivors.

use vstd::prelude::*;
use crate::outside::random_below;

verus! {

broadcast use vstd::seq_lib::group_to_multiset_ensures, vstd::multiset::group_multiset_axioms;

/// One cluster member, as the experiment sees it: a name to address
/// control-plane commands to, and the group that ties a validator to its
/// paired fullnode.
pub struct Instance {
    pub peer_name: String,
    pub validator_group: u64,
}

impl Clone for Instance {
    fn clone(&self) -> (r: Self)
        ensures
            r == *self,
    {
        Instance { peer_name: self.peer_name.clone(), validator_group: self.validator_group }
    }
}

/// A snapshot of the cluster the experiment runs against.
pub struct Cluster {
    pub validator_instances: Vec<Instance>,
    pub fullnode_instances: Vec<Instance>,
}

/// Some instance in the list bears this name.
pub open spec fn has_name(s: Seq<Instance>, v: Seq<char>) -> bool {
    exists|j: int| 0 <= j < s.len() && #[trigger] s[j].peer_name@ == v
}

/// Some name in the list reads this way.
pub open spec fn contains_name(names: Seq<String>, v: Seq<char>) -> bool {
    exists|a: int| 0 <= a < names.len() && #[trigger] names[a]@ == v
}

/// Copies a list of instances.
pub fn clone_instances(v: &Vec<Instance>) -> (r: Vec<Instance>)
    ensures
        r@ == v@,
{
    let mut r: Vec<Instance> = Vec::new();
    let mut i: usize = 0;
    while i < v.len()
        invariant
            i <= v@.len(),
            r@.len() == i,
            forall|k: int| 0 <= k < i ==> r@[k] == v@[k],
        decreases v@.len() - i,
    {
        r.push(v[i].clone());
        i = i + 1;
    }
    proof {
        assert(r@ =~= v@);
    }
    r
}

/// Moves `n` validators, chosen at random without replacement, into the
/// first vector of the result; the rest make up the second. Together
/// the two halves hold exactly the validators given.
pub fn split_n_validators_random(validators: Vec<Instance>, n: usize) -> (r: (
    Vec<Instance>,
    Vec<Instance>,
))
    requires
        n <= validators@.len(),
    ensures
        r.0@.len() == n,
        r.1@.len() == validators@.len() - n,
        r.0@.to_multiset().add(r.1@.to_multiset()) == validators@.to_multiset(),
{
    let mut rest = validators;
    let mut down: Vec<Instance> = Vec::new();
    let ghost all = rest@;
    while down.len() < n
        invariant
            down@.len() <= n <= all.len(),
            down@.len() + rest@.len() == all.len(),
            down@.to_multiset().add(rest@.to_multiset()) == all.to_multiset(),
        decreases n - down@.len(),
    {
        let i = random_below(rest.len());
        let ghost rest_before = rest@;
        let ghost down_before = down@;
        let picked = rest.remove(i);
        down.push(picked);
        proof {
            assert(rest@.to_multiset() == rest_before.to_multiset().remove(picked));
            assert(down@.to_multiset() == down_before.to_multiset().insert(picked));
            assert(rest_before.to_multiset().count(picked) > 0);
            assert(down@.to_multiset().add(rest@.to_multiset()) =~= all.to_multiset());
        }
    }
    (down, rest)
}

/// The first fullnode in `fullnodes` whose group matches `group`, if any.
pub open spec fn first_match(fullnodes: Seq<Instance>, group: u64) -> Option<Instance>
    decreases fullnodes.len(),
{
    if fullnodes.len() == 0 {
        None
    } else if fullnodes.first().validator_group == group {
        Some(fullnodes.first())
    } else {
        first_match(fullnodes.drop_first(), group)
    }
}

/// The fullnodes paired with `ups`, in the order of `ups`: for each up
/// validator, the first fullnode sharing its group; validators without a
/// match contribute nothing.
pub open spec fn matched_fullnodes(ups: Seq<Instance>, fullnodes: Seq<Instance>) -> Seq<Instance>
    decreases ups.len(),
{
    if ups.len() == 0 {
        Seq::empty()
    } else {
        matched_fullnodes(ups.drop_last(), fullnodes) + match first_match(
            fullnodes,
            ups.last().validator_group,
        ) {
            Some(f) => seq![f],
            None => Seq::empty(),
        }
    }
}

/// Finds the first fullnode of `fullnodes` in the group `group`.
fn find_first_match(fullnodes: &Vec<Instance>, group: u64) -> (r: Option<Instance>)
    ensures
        r == first_match(fullnodes@, group),
{
    let mut i: usize = 0;
    proof {
        assert(fullnodes@.skip(0) =~= fullnodes@);
    }
    while i < fullnodes.len()
        invariant
            i <= fullnodes@.len(),
            first_match(fullnodes@, group) == first_match(fullnodes@.skip(i as int), group),
        decreases fullnodes@.len() - i,
    {
        proof {
            assert(fullnodes@.skip(i as int).first() == fullnodes@[i as int]);
        }
        if fullnodes[i].validator_group == group {
            let f = fullnodes[i].clone();
            proof {
                assert(first_match(fullnodes@.skip(i as int), group) == Some(
                    fullnodes@[i as int],
                ));
            }
            return Some(f);
        }
        proof {
            assert(fullnodes@.skip(i as int).drop_first() =~= fullnodes@.skip(i as int + 1));
        }
        i = i + 1;
    }
    proof {
        assert(fullnodes@.skip(i as int) =~= Seq::<Instance>::empty());
    }
    None
}

/// For each up validator, in order, collects the first fullnode sharing
/// its group; unmatched validators are dropped, not represented.
pub fn matching_fullnodes(up_validators: &Vec<Instance>, fullnodes: &Vec<Instance>) -> (r: Vec<
    Instance,
>)
    ensures
        r@ == matched_fullnodes(up_validators@, fullnodes@),
{
    let mut r: Vec<Instance> = Vec::new();
    let mut k: usize = 0;
    while k < up_validators.len()
        invariant
            k <= up_validators@.len(),
            r@ == matched_fullnodes(up_validators@.take(k as int), fullnodes@),
        decreases up_validators@.len() - k,
    {
        let ghost prefix = up_validators@.take(k as int + 1);
        if let Some(f) = find_first_match(fullnodes, up_validators[k].validator_group) {
            r.push(f);
        }
        proof {
            assert(prefix.drop_last() =~= up_validators@.take(k as int));
            assert(prefix.last() == up_validators@[k as int]);
            assert(r@ == matched_fullnodes(prefix, fullnodes@));
        }
        k = k + 1;
    }
    proof {
        assert(up_validators@.take(up_validators@.len() as int) =~= up_validators@);
    }
    r
}

/// Law: a split of the validator snapshot is a partition. Whenever the
/// down and up halves together hold exactly the snapshot's validators,
/// and the snapshot lists each validator once, the two halves share no
/// validator and their union is exactly the snapshot.
pub proof fn lemma_split_is_partition(down: Seq<Instance>, up: Seq<Instance>, all: Seq<Instance>)
    requires
        down.to_multiset().add(up.to_multiset()) == all.to_multiset(),
        all.no_duplicates(),
    ensures
        down.to_set().intersect(up.to_set()) == Set::<Instance>::empty(),
        down.to_set().union(up.to_set()) == all.to_set(),
{
    all.lemma_multiset_has_no_duplicates();
    assert forall|x: Instance| !(down.to_set().intersect(up.to_set()).contains(x)) by {
        if down.to_set().contains(x) && up.to_set().contains(x) {
            assert(down.contains(x) && up.contains(x));
            assert(down.to_multiset().count(x) > 0 && up.to_multiset().count(x) > 0);
            assert(all.to_multiset().count(x) >= 2);
            assert(all.to_multiset().contains(x));
        }
    }
    assert(down.to_set().intersect(up.to_set()) =~= Set::<Instance>::empty());
    assert forall|x: Instance|
        down.to_set().union(up.to_set()).contains(x) <==> all.to_set().contains(x) by {
        assert(down.to_set().contains(x) <==> down.to_multiset().count(x) > 0);
        assert(up.to_set().contains(x) <==> up.to_multiset().count(x) > 0);
        assert(all.to_set().contains(x) <==> all.to_multiset().count(x) > 0);
        assert(all.to_multiset().count(x) == down.to_multiset().count(x) + up.to_multiset().count(
            x,
        ));
    }
    assert(down.to_set().union(up.to_set()) =~= all.to_set());
}

/// A value counted at least twice in a sequence's multiset sits at two
/// distinct positions.
proof fn lemma_two_positions<A>(s: Seq<A>, x: A)
    requires
        s.to_multiset().count(x) >= 2,
    ensures
        exists|a: int, b: int|
            #![trigger s[a], s[b]]
            0 <= a < s.len() && 0 <= b < s.len() && a != b && s[a] == x && s[b] == x,
{
    assert(s.contains(x));
    let a = choose|a: int| 0 <= a < s.len() && s[a] == x;
    assert(s.remove(a).to_multiset() == s.to_multiset().remove(s[a]));
    assert(s.remove(a).to_multiset().count(x) >= 1);
    assert(s.remove(a).contains(x));
    let b0 = choose|b: int| 0 <= b < s.remove(a).len() && s.remove(a)[b] == x;
    s.remove_ensures(a);
    let b: int = if b0 < a {
        b0
    } else {
        b0 + 1
    };
    assert(s[b] == x && b != a);
}

/// Law: when the snapshot lists no validator name twice, the two halves
/// of a split share no name: no down validator's name reads as an up
/// validator's name.
pub proof fn lemma_split_names_disjoint(down: Seq<Instance>, up: Seq<Instance>, all: Seq<Instance>)
    requires
        down.to_multiset().add(up.to_multiset()) == all.to_multiset(),
        forall|a: int, b: int|
            0 <= a < b < all.len() ==> #[trigger] all[a].peer_name@
                != #[trigger] all[b].peer_name@,
    ensures
        forall|i: int, j: int|
            0 <= i < down.len() && 0 <= j < up.len() ==> #[trigger] down[i].peer_name@
                != #[trigger] up[j].peer_name@,
{
    assert forall|i: int, j: int|
        0 <= i < down.len() && 0 <= j < up.len() implies #[trigger] down[i].peer_name@
        != #[trigger] up[j].peer_name@ by {
        let x = down[i];
        let y = up[j];
        assert(down.contains(x) && up.contains(y));
        assert(down.to_multiset().count(x) > 0 && up.to_multiset().count(y) > 0);
        assert(all.to_multiset().count(x) > 0 && all.to_multiset().count(y) > 0);
        if x.peer_name@ == y.peer_name@ {
            if x == y {
                assert(all.to_multiset().count(x) >= 2);
                lemma_two_positions(all, x);
                let (a, b) = choose|a: int, b: int|
                    #![trigger all[a], all[b]]
                    0 <= a < all.len() && 0 <= b < all.len() && a != b && all[a] == x && all[b]
                        == x;
                if a < b {
                    assert(all[a].peer_name@ != all[b].peer_name@);
                } else {
                    assert(all[b].peer_name@ != all[a].peer_name@);
                }
                assert(false);
            } else {
                assert(all.contains(x) && all.contains(y));
                let a = choose|a: int| 0 <= a < all.len() && all[a] == x;
                let b = choose|b: int| 0 <= b < all.len() && all[b] == y;
                assert(a != b);
                if a < b {
                    assert(all[a].peer_name@ != all[b].peer_name@);
                } else {
                    assert(all[b].peer_name@ != all[a].peer_name@);
                }
                assert(false);
            }
        }
    }
}

} // verus!
