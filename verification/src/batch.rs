use vstd::prelude::*;
use crate::outcome::{is_failure, outcome_is_failure, Outcome};

verus! {

/// The per-file results as the specification sees them: each path's view
/// beside its outcome.
pub open spec fn result_views(rs: Seq<(String, Outcome)>) -> Seq<(Seq<char>, Outcome)> {
    rs.map_values(|p: (String, Outcome)| (p.0@, p.1))
}

/// The paths of the failing results, in order of appearance.
pub open spec fn failed_paths(rs: Seq<(Seq<char>, Outcome)>) -> Seq<Seq<char>>
    decreases rs.len(),
{
    if rs.len() == 0 {
        Seq::empty()
    } else if is_failure(rs.last().1) {
        failed_paths(rs.drop_last()).push(rs.last().0)
    } else {
        failed_paths(rs.drop_last())
    }
}

/// The paths of the successful results, in order of appearance.
pub open spec fn succeeded_paths(rs: Seq<(Seq<char>, Outcome)>) -> Seq<Seq<char>>
    decreases rs.len(),
{
    if rs.len() == 0 {
        Seq::empty()
    } else if rs.last().1 is Success {
        succeeded_paths(rs.drop_last()).push(rs.last().0)
    } else {
        succeeded_paths(rs.drop_last())
    }
}

/// Some failing result carries this path.
pub open spec fn appears_failing(rs: Seq<(Seq<char>, Outcome)>, p: Seq<char>) -> bool {
    exists|i: int| 0 <= i < rs.len() && is_failure((#[trigger] rs[i]).1) && rs[i].0 == p
}

/// Some successful result carries this path.
pub open spec fn appears_succeeding(rs: Seq<(Seq<char>, Outcome)>, p: Seq<char>) -> bool {
    exists|i: int| 0 <= i < rs.len() && (#[trigger] rs[i]).1 is Success && rs[i].0 == p
}

/// The failure list is exact: every listed path belongs to a failing
/// result, every failing result's path is listed, and nothing succeeding
/// ever slips in.
pub proof fn lemma_failed_paths_exact(rs: Seq<(Seq<char>, Outcome)>)
    ensures
        failed_paths(rs).len() <= rs.len(),
        forall|k: int|
            0 <= k < failed_paths(rs).len() ==> appears_failing(rs, #[trigger] failed_paths(rs)[k]),
        forall|i: int|
            0 <= i < rs.len() && is_failure((#[trigger] rs[i]).1) ==> failed_paths(rs).contains(
                rs[i].0,
            ),
    decreases rs.len(),
{
    if rs.len() > 0 {
        let prev = rs.drop_last();
        lemma_failed_paths_exact(prev);
        let fp = failed_paths(rs);
        let fprev = failed_paths(prev);
        assert forall|k: int| 0 <= k < fp.len() implies appears_failing(rs, fp[k]) by {
            if k < fprev.len() {
                assert(appears_failing(prev, fprev[k]));
                let i = choose|i: int|
                    0 <= i < prev.len() && is_failure((#[trigger] prev[i]).1) && prev[i].0
                        == fprev[k];
                assert(rs[i] == prev[i]);
                assert(fp[k] == fprev[k]);
                assert(0 <= i < rs.len() && is_failure(rs[i].1) && rs[i].0 == fp[k]);
            } else {
                let i = rs.len() - 1;
                assert(0 <= i < rs.len() && is_failure(rs[i].1) && rs[i].0 == fp[k]);
            }
        }
        assert forall|i: int|
            0 <= i < rs.len() && is_failure((#[trigger] rs[i]).1) implies fp.contains(rs[i].0) by {
            if i < rs.len() - 1 {
                assert(prev[i] == rs[i]);
                assert(fprev.contains(prev[i].0));
                let k = choose|k: int| 0 <= k < fprev.len() && fprev[k] == prev[i].0;
                assert(fp[k] == fprev[k]);
            } else {
                assert(fp[fp.len() - 1] == rs[i].0);
            }
        }
    }
}

/// The success list is exact in the same way.
pub proof fn lemma_succeeded_paths_exact(rs: Seq<(Seq<char>, Outcome)>)
    ensures
        succeeded_paths(rs).len() <= rs.len(),
        forall|k: int|
            0 <= k < succeeded_paths(rs).len() ==> appears_succeeding(
                rs,
                #[trigger] succeeded_paths(rs)[k],
            ),
        forall|i: int|
            0 <= i < rs.len() && (#[trigger] rs[i]).1 is Success ==> succeeded_paths(rs).contains(
                rs[i].0,
            ),
    decreases rs.len(),
{
    if rs.len() > 0 {
        let prev = rs.drop_last();
        lemma_succeeded_paths_exact(prev);
        let sp = succeeded_paths(rs);
        let sprev = succeeded_paths(prev);
        assert forall|k: int| 0 <= k < sp.len() implies appears_succeeding(rs, sp[k]) by {
            if k < sprev.len() {
                assert(appears_succeeding(prev, sprev[k]));
                let i = choose|i: int|
                    0 <= i < prev.len() && (#[trigger] prev[i]).1 is Success && prev[i].0
                        == sprev[k];
                assert(rs[i] == prev[i]);
                assert(sp[k] == sprev[k]);
                assert(0 <= i < rs.len() && rs[i].1 is Success && rs[i].0 == sp[k]);
            } else {
                let i = rs.len() - 1;
                assert(0 <= i < rs.len() && rs[i].1 is Success && rs[i].0 == sp[k]);
            }
        }
        assert forall|i: int|
            0 <= i < rs.len() && (#[trigger] rs[i]).1 is Success implies sp.contains(rs[i].0) by {
            if i < rs.len() - 1 {
                assert(prev[i] == rs[i]);
                assert(sprev.contains(prev[i].0));
                let k = choose|k: int| 0 <= k < sprev.len() && sprev[k] == prev[i].0;
                assert(sp[k] == sprev[k]);
            } else {
                assert(sp[sp.len() - 1] == rs[i].0);
            }
        }
    }
}

/// Collects the paths of the failing results, in order.
pub fn collect_failures(results: &Vec<(String, Outcome)>) -> (r: Vec<String>)
    ensures
        r.deep_view() == failed_paths(result_views(results@)),
{
    let ghost rv = result_views(results@);
    let mut out: Vec<String> = Vec::new();
    let mut i: usize = 0;
    while i < results.len()
        invariant
            i <= results.len(),
            rv == result_views(results@),
            rv.len() == results@.len(),
            out.deep_view() == failed_paths(rv.subrange(0, i as int)),
        decreases results.len() - i,
    {
        let ghost before = rv.subrange(0, i as int);
        let ghost after = rv.subrange(0, i + 1);
        proof {
            assert(after.drop_last() =~= before);
            assert(after.last() == rv[i as int]);
        }
        if outcome_is_failure(results[i].1) {
            let p = results[i].0.clone();
            out.push(p);
            proof {
                assert(out.deep_view() =~= failed_paths(after));
            }
        } else {
            proof {
                assert(out.deep_view() =~= failed_paths(after));
            }
        }
        i = i + 1;
    }
    proof {
        assert(rv.subrange(0, results@.len() as int) =~= rv);
    }
    out
}

/// Collects the paths of the successful results, in order — the originals
/// an in-place conversion may later delete.
pub fn collect_successes(results: &Vec<(String, Outcome)>) -> (r: Vec<String>)
    ensures
        r.deep_view() == succeeded_paths(result_views(results@)),
{
    let ghost rv = result_views(results@);
    let mut out: Vec<String> = Vec::new();
    let mut i: usize = 0;
    while i < results.len()
        invariant
            i <= results.len(),
            rv == result_views(results@),
            rv.len() == results@.len(),
            out.deep_view() == succeeded_paths(rv.subrange(0, i as int)),
        decreases results.len() - i,
    {
        let ghost before = rv.subrange(0, i as int);
        let ghost after = rv.subrange(0, i + 1);
        proof {
            assert(after.drop_last() =~= before);
            assert(after.last() == rv[i as int]);
        }
        let succeeded = match results[i].1 {
            Outcome::Success => true,
            _ => false,
        };
        if succeeded {
            let p = results[i].0.clone();
            out.push(p);
            proof {
                assert(out.deep_view() =~= succeeded_paths(after));
            }
        } else {
            proof {
                assert(out.deep_view() =~= succeeded_paths(after));
            }
        }
        i = i + 1;
    }
    proof {
        assert(rv.subrange(0, results@.len() as int) =~= rv);
    }
    out
}

/// How many entries of a sequence of flags are set.
pub open spec fn count_trues(s: Seq<bool>) -> nat
    decreases s.len(),
{
    if s.len() == 0 {
        0
    } else {
        count_trues(s.drop_last()) + if s.last() {
            1nat
        } else {
            0nat
        }
    }
}

/// Counts the set flags: the number of files a deletion pass removed.
pub fn count_true(v: &Vec<bool>) -> (n: usize)
    ensures
        n == count_trues(v@),
{
    let mut n: usize = 0;
    let mut i: usize = 0;
    while i < v.len()
        invariant
            i <= v.len(),
            n <= i,
            n == count_trues(v@.subrange(0, i as int)),
        decreases v.len() - i,
    {
        let ghost before = v@.subrange(0, i as int);
        let ghost after = v@.subrange(0, i + 1);
        proof {
            assert(after.drop_last() =~= before);
            assert(after.last() == v@[i as int]);
        }
        if v[i] {
            n = n + 1;
        }
        i = i + 1;
    }
    proof {
        assert(v@.subrange(0, v@.len() as int) =~= v@);
    }
    n
}

} // verus!
