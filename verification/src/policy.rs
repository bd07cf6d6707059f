//! The ignore policy: a pure predicate deciding whether a directory subtree
//! is pruned before any descent into it.
//!
//! A directory is pruned when its full path case-insensitively equals, or
//! case-sensitively extends, one of the configured system paths, or — except
//! at the scan root itself — when its own name case-insensitively equals one
//! of the configured noise names.

use crate::config::ScanConfig;
use crate::text::eq_ignore_ascii_case;
use crate::text::eq_ignore_ascii_case_seq;
use crate::text::is_prefix_of;
use crate::text::starts_with;
use vstd::prelude::*;

verus! {

/// `path` equals one of `dirs` up to ASCII case, or starts with one of them.
pub open spec fn matches_ignored_dir(dirs: Seq<Seq<char>>, path: Seq<char>) -> bool {
    exists|i: int|
        0 <= i < dirs.len() && (eq_ignore_ascii_case_seq(path, dirs[i]) || is_prefix_of(
            dirs[i],
            path,
        ))
}

/// `name` equals one of `names` up to ASCII case.
pub open spec fn matches_ignored_name(names: Seq<Seq<char>>, name: Seq<char>) -> bool {
    exists|i: int| 0 <= i < names.len() && eq_ignore_ascii_case_seq(name, names[i])
}

/// The pruning decision for a directory at `depth` below the scan root
/// (the root itself is at depth 0). The name rule never applies to the
/// root, so that a root passed explicitly inside a normally-ignored tree
/// is still scanned; the path rule applies at every depth.
pub open spec fn should_prune_spec(
    cfg: ScanConfig,
    path: Seq<char>,
    name: Seq<char>,
    depth: int,
) -> bool {
    matches_ignored_dir(cfg.ignored_dirs.deep_view(), path) || (depth > 0 && matches_ignored_name(
        cfg.ignored_names.deep_view(),
        name,
    ))
}

fn matches_dir_list(dirs: &Vec<String>, path: &str) -> (r: bool)
    ensures
        r == matches_ignored_dir(dirs.deep_view(), path@),
{
    let n = dirs.len();
    let mut i: usize = 0;
    while i < n
        invariant
            n == dirs@.len(),
            0 <= i <= n,
            forall|j: int|
                0 <= j < i ==> !(eq_ignore_ascii_case_seq(path@, dirs.deep_view()[j])
                    || is_prefix_of(dirs.deep_view()[j], path@)),
        decreases n - i,
    {
        let d = &dirs[i];
        if eq_ignore_ascii_case(path, d.as_str()) || starts_with(path, d.as_str()) {
            proof {
                assert(dirs.deep_view()[i as int] == d@);
            }
            return true;
        }
        i = i + 1;
    }
    false
}

fn matches_name_list(names: &Vec<String>, name: &str) -> (r: bool)
    ensures
        r == matches_ignored_name(names.deep_view(), name@),
{
    let n = names.len();
    let mut i: usize = 0;
    while i < n
        invariant
            n == names@.len(),
            0 <= i <= n,
            forall|j: int| 0 <= j < i ==> !eq_ignore_ascii_case_seq(name@, names.deep_view()[j]),
        decreases n - i,
    {
        let d = &names[i];
        if eq_ignore_ascii_case(name, d.as_str()) {
            proof {
                assert(names.deep_view()[i as int] == d@);
            }
            return true;
        }
        i = i + 1;
    }
    false
}

/// Decide whether the directory at `path`, whose own name is `name` and
/// which sits `depth` levels below the scan root, is pruned.
pub fn should_prune(cfg: &ScanConfig, path: &str, name: &str, depth: u64) -> (r: bool)
    ensures
        r == should_prune_spec(*cfg, path@, name@, depth as int),
{
    if matches_dir_list(&cfg.ignored_dirs, path) {
        return true;
    }
    depth > 0 && matches_name_list(&cfg.ignored_names, name)
}

} // verus!
