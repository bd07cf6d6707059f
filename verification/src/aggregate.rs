//! The result aggregator: once every worker has finished, their result
//! buffers are merged into one `ScanResult`.
//!
//! Discovered projects are deduplicated by `target_path` — the first
//! occurrence wins, later ones (from overlapping roots) are dropped
//! silently — and the ignored-path lists are concatenated.

use crate::project::clone_project;
use crate::project::ProjectTarget;
use crate::project::ScanResult;
use crate::text::str_eq;
use vstd::prelude::*;

verus! {

/// Some entry of `s` has the output-directory path `t`.
pub open spec fn contains_target(s: Seq<ProjectTarget>, t: Seq<char>) -> bool {
    exists|i: int| 0 <= i < s.len() && s[i].target_path@ == t
}

/// No two entries share an output-directory path.
pub open spec fn unique_targets(s: Seq<ProjectTarget>) -> bool {
    forall|i: int, j: int| 0 <= i < j < s.len() ==> s[i].target_path@ != s[j].target_path@
}

/// `s` with every entry dropped whose `target_path` already occurred
/// earlier: first seen wins.
pub open spec fn dedup_by_target(s: Seq<ProjectTarget>) -> Seq<ProjectTarget>
    decreases s.len(),
{
    if s.len() == 0 {
        Seq::empty()
    } else {
        let rest = dedup_by_target(s.drop_last());
        if contains_target(rest, s.last().target_path@) {
            rest
        } else {
            rest.push(s.last())
        }
    }
}

/// Deduplication gives a result without duplicate `target_path`s.
pub proof fn lemma_dedup_unique(s: Seq<ProjectTarget>)
    ensures
        unique_targets(dedup_by_target(s)),
    decreases s.len(),
{
    if s.len() > 0 {
        lemma_dedup_unique(s.drop_last());
    }
}

/// Deduplication neither invents nor loses an output-directory path: a
/// path occurs in the deduplicated sequence exactly when it occurs in the
/// original.
pub proof fn lemma_dedup_same_targets(s: Seq<ProjectTarget>, t: Seq<char>)
    ensures
        contains_target(dedup_by_target(s), t) == contains_target(s, t),
    decreases s.len(),
{
    if s.len() > 0 {
        lemma_dedup_same_targets(s.drop_last(), t);
        let rest = dedup_by_target(s.drop_last());
        let whole = dedup_by_target(s);
        if contains_target(s, t) {
            let i = choose|i: int| 0 <= i < s.len() && s[i].target_path@ == t;
            if i < s.len() - 1 {
                assert(s.drop_last()[i] == s[i]);
                assert(contains_target(s.drop_last(), t));
                let k = choose|k: int| 0 <= k < rest.len() && rest[k].target_path@ == t;
                assert(whole[k] == rest[k]);
                assert(contains_target(whole, t));
            } else {
                if contains_target(rest, s.last().target_path@) {
                    let k = choose|k: int|
                        0 <= k < rest.len() && rest[k].target_path@ == s.last().target_path@;
                    assert(whole[k] == rest[k]);
                    assert(contains_target(whole, t));
                } else {
                    assert(whole.last().target_path@ == t);
                    assert(contains_target(whole, t));
                }
            }
        }
        if contains_target(whole, t) {
            let j = choose|j: int| 0 <= j < whole.len() && whole[j].target_path@ == t;
            if j < rest.len() {
                assert(whole[j] == rest[j]);
                assert(contains_target(rest, t));
                let i = choose|i: int|
                    0 <= i < s.drop_last().len() && s.drop_last()[i].target_path@ == t;
                assert(s[i] == s.drop_last()[i]);
                assert(contains_target(s, t));
            } else {
                assert(whole[j] == s.last());
                assert(s[s.len() - 1].target_path@ == t);
                assert(contains_target(s, t));
            }
        }
    }
}

/// Every entry kept by deduplication is an entry of the original sequence:
/// no record is made up.
pub proof fn lemma_dedup_no_spurious(s: Seq<ProjectTarget>, j: int)
    requires
        0 <= j < dedup_by_target(s).len(),
    ensures
        s.contains(dedup_by_target(s)[j]),
    decreases s.len(),
{
    if s.len() > 0 {
        let rest = dedup_by_target(s.drop_last());
        if j < rest.len() {
            lemma_dedup_no_spurious(s.drop_last(), j);
            let k = choose|k: int| 0 <= k < s.drop_last().len() && s.drop_last()[k] == rest[j];
            assert(s[k] == dedup_by_target(s)[j]);
        } else {
            assert(s[s.len() - 1] == dedup_by_target(s)[j]);
        }
    }
}

/// Stopping early never invents results: deduplicating any prefix of the
/// discovery sequence — such as the part found before a cancellation —
/// gives exactly a prefix of the full sequence's deduplicated result.
pub proof fn lemma_dedup_prefix(s: Seq<ProjectTarget>, k: int)
    requires
        0 <= k <= s.len(),
    ensures
        dedup_by_target(s.take(k)).len() <= dedup_by_target(s).len(),
        dedup_by_target(s).take(dedup_by_target(s.take(k)).len() as int) == dedup_by_target(
            s.take(k),
        ),
    decreases s.len(),
{
    if k == s.len() {
        assert(s.take(k) =~= s);
        assert(dedup_by_target(s).take(dedup_by_target(s).len() as int) =~= dedup_by_target(s));
    } else {
        assert(s.drop_last().take(k) =~= s.take(k));
        lemma_dedup_prefix(s.drop_last(), k);
        let rest = dedup_by_target(s.drop_last());
        let part = dedup_by_target(s.take(k));
        if contains_target(rest, s.last().target_path@) {
            assert(dedup_by_target(s) == rest);
        } else {
            assert(dedup_by_target(s) == rest.push(s.last()));
            assert(rest.push(s.last()).take(part.len() as int) =~= rest.take(part.len() as int));
        }
    }
}

/// All projects of the workers' buffers, in worker order.
pub open spec fn all_projects(outputs: Seq<(Vec<ProjectTarget>, Vec<String>)>) -> Seq<
    ProjectTarget,
>
    decreases outputs.len(),
{
    if outputs.len() == 0 {
        Seq::empty()
    } else {
        all_projects(outputs.drop_last()) + outputs.last().0@
    }
}

/// All ignored paths of the workers' buffers, in worker order.
pub open spec fn all_ignored(outputs: Seq<(Vec<ProjectTarget>, Vec<String>)>) -> Seq<String>
    decreases outputs.len(),
{
    if outputs.len() == 0 {
        Seq::empty()
    } else {
        all_ignored(outputs.drop_last()) + outputs.last().1@
    }
}

/// Is a project with this output-directory path already among `acc`?
fn contains_target_exec(acc: &Vec<ProjectTarget>, t: &str) -> (r: bool)
    ensures
        r == contains_target(acc@, t@),
{
    let n = acc.len();
    let mut i: usize = 0;
    while i < n
        invariant
            n == acc@.len(),
            0 <= i <= n,
            forall|j: int| 0 <= j < i ==> acc@[j].target_path@ != t@,
        decreases n - i,
    {
        if str_eq(acc[i].target_path.as_str(), t) {
            return true;
        }
        i = i + 1;
    }
    false
}

/// Merge the workers' buffers into the final result: projects
/// deduplicated by `target_path` with the first occurrence kept, ignored
/// paths concatenated.
pub fn merge_results(outputs: &Vec<(Vec<ProjectTarget>, Vec<String>)>) -> (r: ScanResult)
    ensures
        r.projects@ == dedup_by_target(all_projects(outputs@)),
        r.ignored_paths@ == all_ignored(outputs@),
        unique_targets(r.projects@),
{
    let mut projects: Vec<ProjectTarget> = Vec::new();
    let mut ignored: Vec<String> = Vec::new();
    let n = outputs.len();
    let mut k: usize = 0;
    proof {
        assert(outputs@.take(0) =~= Seq::<(Vec<ProjectTarget>, Vec<String>)>::empty());
    }
    while k < n
        invariant
            n == outputs@.len(),
            0 <= k <= n,
            projects@ == dedup_by_target(all_projects(outputs@.take(k as int))),
            ignored@ == all_ignored(outputs@.take(k as int)),
        decreases n - k,
    {
        proof {
            assert(outputs@.take(k as int + 1).drop_last() =~= outputs@.take(k as int));
            assert(outputs@.take(k as int + 1).last() == outputs@[k as int]);
        }
        let ghost base = all_projects(outputs@.take(k as int));
        let batch = &outputs[k].0;
        let m = batch.len();
        let mut i: usize = 0;
        proof {
            assert(base + batch@.take(0) =~= base);
        }
        while i < m
            invariant
                m == batch@.len(),
                0 <= i <= m,
                batch == &outputs[k as int].0,
                projects@ == dedup_by_target(base + batch@.take(i as int)),
            decreases m - i,
        {
            proof {
                assert((base + batch@.take(i as int + 1)).drop_last() =~= base + batch@.take(
                    i as int,
                ));
                assert((base + batch@.take(i as int + 1)).last() == batch@[i as int]);
            }
            let p = &batch[i];
            if !contains_target_exec(&projects, p.target_path.as_str()) {
                projects.push(clone_project(p));
            }
            i = i + 1;
        }
        proof {
            assert(batch@.take(m as int) =~= batch@);
            assert(base + batch@ =~= all_projects(outputs@.take(k as int + 1)));
        }
        let paths = &outputs[k].1;
        let pm = paths.len();
        let mut q: usize = 0;
        let ghost ibase = all_ignored(outputs@.take(k as int));
        proof {
            assert(ibase + paths@.take(0) =~= ibase);
        }
        while q < pm
            invariant
                pm == paths@.len(),
                0 <= q <= pm,
                paths == &outputs[k as int].1,
                ignored@ == ibase + paths@.take(q as int),
            decreases pm - q,
        {
            ignored.push(paths[q].clone());
            proof {
                assert(ibase + paths@.take(q as int + 1) =~= (ibase + paths@.take(q as int)).push(
                    paths@[q as int],
                ));
            }
            q = q + 1;
        }
        proof {
            assert(paths@.take(pm as int) =~= paths@);
            assert(ibase + paths@ =~= all_ignored(outputs@.take(k as int + 1)));
        }
        k = k + 1;
    }
    proof {
        assert(outputs@.take(n as int) =~= outputs@);
        lemma_dedup_unique(all_projects(outputs@));
    }
    ScanResult { projects, ignored_paths: ignored }
}

} // verus!
