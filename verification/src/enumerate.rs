use vstd::prelude::*;

use vstd::seq_lib::{lemma_multiset_commutative, to_multiset_build};

use crate::shard_name::{parse_shard_name, spec_parse_shard_name};

verus! {

// The decompression-side archive enumerator.
//
// A directory listing is reduced to the files that follow the shard naming
// convention, and those are ordered by shard index — which, with the
// fixed-width zero-padded names, is the lexicographic order of the names —
// so that shards are dispatched to the worker pool in a deterministic
// order, one archive per task.

/// The shard indices encoded by the names that follow the naming
/// convention, in input order.
pub open spec fn parsed_indices(names: Seq<String>) -> Seq<u64>
    decreases names.len(),
{
    if names.len() == 0 {
        Seq::<u64>::empty()
    } else {
        match spec_parse_shard_name(names.first()@) {
            Some(i) => seq![i] + parsed_indices(names.drop_first()),
            None => parsed_indices(names.drop_first()),
        }
    }
}

/// The parse result of one more name lands at the back.
proof fn lemma_parsed_indices_push(names: Seq<String>, x: String)
    ensures
        parsed_indices(names.push(x)) == parsed_indices(names) + (
        match spec_parse_shard_name(x@) {
            Some(i) => seq![i],
            None => Seq::<u64>::empty(),
        }),
    decreases names.len(),
{
    let tail = match spec_parse_shard_name(x@) {
        Some(i) => seq![i],
        None => Seq::<u64>::empty(),
    };
    if names.len() == 0 {
        assert(names.push(x).first() == x);
        assert(names.push(x).drop_first() =~= Seq::<String>::empty());
        assert(parsed_indices(Seq::<String>::empty()) == Seq::<u64>::empty());
        assert(parsed_indices(names.push(x)) =~= parsed_indices(names) + tail);
    } else {
        assert(names.push(x).first() == names.first());
        assert(names.push(x).drop_first() =~= names.drop_first().push(x));
        lemma_parsed_indices_push(names.drop_first(), x);
        assert(parsed_indices(names.push(x)) =~= parsed_indices(names) + tail);
    }
}

/// Ascending order on shard indices.
pub open spec fn sorted_ascending(s: Seq<u64>) -> bool {
    forall|a: int, b: int| 0 <= a < b < s.len() ==> s[a] <= s[b]
}

/// Inserting an element anywhere in a sequence adds it to the multiset.
proof fn lemma_to_multiset_insert(s: Seq<u64>, i: int, x: u64)
    requires
        0 <= i <= s.len(),
    ensures
        s.insert(i, x).to_multiset() == s.to_multiset().insert(x),
{
    broadcast use vstd::multiset::group_multiset_axioms;

    let a = s.subrange(0, i);
    let b = s.subrange(i, s.len() as int);
    assert(s.insert(i, x) == a.push(x) + b);
    lemma_multiset_commutative(a.push(x), b);
    to_multiset_build(a, x);
    assert(a + b =~= s);
    lemma_multiset_commutative(a, b);
    assert(a.to_multiset().insert(x).add(b.to_multiset()) =~= a.to_multiset().add(
        b.to_multiset(),
    ).insert(x));
}

/// Insert one index into an already-sorted vector, keeping it sorted.
fn insert_sorted(out: &mut Vec<u64>, x: u64)
    requires
        sorted_ascending(old(out)@),
    ensures
        sorted_ascending(final(out)@),
        final(out)@.to_multiset() == old(out)@.to_multiset().insert(x),
        final(out)@.len() == old(out)@.len() + 1,
{
    let mut p: usize = 0;
    while p < out.len() && out[p] <= x
        invariant
            p <= out@.len(),
            out@ == old(out)@,
            forall|k: int| 0 <= k < p ==> out@[k] <= x,
        decreases out@.len() - p,
    {
        p = p + 1;
    }
    proof {
        out@.insert_ensures(p as int, x);
        lemma_to_multiset_insert(out@, p as int, x);
    }
    let ghost s0 = out@;
    let ghost pos = p as int;
    out.insert(p, x);
    proof {
        assert forall|a: int, b: int| 0 <= a < b < out@.len() implies out@[a] <= out@[b] by {
            if b < pos {
                assert(out@[a] == s0[a] && out@[b] == s0[b]);
            } else if a < pos && b == pos {
                assert(out@[a] == s0[a] && out@[b] == x);
            } else if a < pos && b > pos {
                assert(out@[a] == s0[a] && out@[b] == s0[b - 1]);
                if b - 1 == pos {
                    assert(pos < s0.len());
                    assert(s0[pos] > x);
                    assert(out@[a] <= x);
                } else {
                }
            } else if a == pos {
                assert(out@[a] == x && out@[b] == s0[b - 1]);
                assert(pos < s0.len());
                assert(s0[pos] > x);
                assert(s0[pos] <= s0[b - 1]);
            } else {
                assert(out@[a] == s0[a - 1] && out@[b] == s0[b - 1]);
            }
        }
    }
}

/// Two sorted plans over the same set of shards are identical: together
/// with the contract of `plan_shards` this makes the processing order
/// deterministic, whatever order the directory listing arrived in.
pub proof fn lemma_sorted_plans_agree(s1: Seq<u64>, s2: Seq<u64>)
    requires
        sorted_ascending(s1),
        sorted_ascending(s2),
        s1.to_multiset() == s2.to_multiset(),
    ensures
        s1 == s2,
    decreases s1.len(),
{
    broadcast use vstd::seq_lib::group_to_multiset_ensures;

    if s1.len() == 0 {
        assert(s2.len() == s1.to_multiset().len());
        assert(s1 =~= s2);
    } else {
        assert(s2.len() == s1.to_multiset().len());
        assert(s1.contains(s1[0]));
        assert(s2.to_multiset().count(s1[0]) > 0);
        assert(s2.contains(s1[0]));
        let j = choose|j: int| 0 <= j < s2.len() && s2[j] == s1[0];
        assert(s2[0] <= s1[0]);
        assert(s2.contains(s2[0]));
        assert(s1.to_multiset().count(s2[0]) > 0);
        assert(s1.contains(s2[0]));
        let k = choose|k: int| 0 <= k < s1.len() && s1[k] == s2[0];
        assert(s1[0] <= s2[0]);
        assert(s1[0] == s2[0]);
        assert(s1.drop_first() =~= s1.remove(0));
        assert(s2.drop_first() =~= s2.remove(0));
        vstd::seq_lib::to_multiset_remove(s1, 0);
        vstd::seq_lib::to_multiset_remove(s2, 0);
        assert(s1.drop_first().to_multiset() == s2.drop_first().to_multiset());
        assert(sorted_ascending(s1.drop_first()));
        assert(sorted_ascending(s2.drop_first()));
        lemma_sorted_plans_agree(s1.drop_first(), s2.drop_first());
        assert forall|i: int| 0 <= i < s1.len() implies s1[i] == s2[i] by {
            if i > 0 {
                assert(s1[i] == s1.drop_first()[i - 1]);
                assert(s2[i] == s2.drop_first()[i - 1]);
            }
        }
        assert(s1 =~= s2);
    }
}

/// Plan a decompression run over a directory listing: exactly the names
/// that follow the shard naming convention are kept, as their parsed
/// indices, and they come out in ascending index order — deterministic
/// whatever order the directory listing arrived in.
pub fn plan_shards(names: &Vec<String>) -> (r: Vec<u64>)
    ensures
        sorted_ascending(r@),
        r@.to_multiset() == parsed_indices(names@).to_multiset(),
{
    broadcast use vstd::multiset::group_multiset_axioms;

    let mut out: Vec<u64> = Vec::new();
    let mut i: usize = 0;
    while i < names.len()
        invariant
            i <= names@.len(),
            sorted_ascending(out@),
            out@.to_multiset() == parsed_indices(names@.take(i as int)).to_multiset(),
        decreases names@.len() - i,
    {
        proof {
            assert(names@.take(i as int).push(names@[i as int]) =~= names@.take(i as int + 1));
            lemma_parsed_indices_push(names@.take(i as int), names@[i as int]);
        }
        let parsed = parse_shard_name(names[i].as_str());
        match parsed {
            Some(idx) => {
                insert_sorted(&mut out, idx);
                proof {
                    let before = parsed_indices(names@.take(i as int));
                    assert(before + seq![idx] =~= before.push(idx));
                    to_multiset_build(before, idx);
                    assert(before.to_multiset().insert(idx) =~= parsed_indices(
                        names@.take(i as int + 1),
                    ).to_multiset());
                }
            },
            None => {
                proof {
                    assert(parsed_indices(names@.take(i as int)) + Seq::<u64>::empty()
                        =~= parsed_indices(names@.take(i as int)));
                }
            },
        }
        i = i + 1;
    }
    proof {
        assert(names@.take(names@.len() as int) =~= names@);
    }
    out
}

} // verus!
