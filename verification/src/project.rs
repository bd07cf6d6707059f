//! The scan's data model and the project detector.
//!
//! A directory is a project when its direct children include the marker
//! file `Cargo.toml` as a regular file and an output directory named
//! `target`. Such a directory is reported and never descended into.

use crate::text::str_eq;
use vstd::prelude::*;

verus! {

/// Metadata of one direct child of a directory, as the traversal driver
/// hands it in: its bare name and whether it is a directory or regular file.
#[derive(Clone, Debug)]
pub struct EntryInfo {
    pub name: String,
    pub is_dir: bool,
    pub is_file: bool,
}

/// A discovered project: a directory with the marker file and an output
/// directory, whose recursive size was measured at discovery time.
#[derive(Clone, Debug)]
pub struct ProjectTarget {
    pub project_path: String,
    pub target_path: String,
    pub project_name: String,
    pub fullname: String,
    pub target_size: u64,
    pub errors: u64,
}

/// A point-in-time snapshot of one root's traversal counters.
#[derive(Clone, Debug)]
pub struct ProgressInfo {
    pub root: String,
    pub current: u64,
    pub total: u64,
    pub ignored: u64,
}

/// The aggregate outcome of a scan: discovered projects, unique by
/// `target_path`, and the paths of all pruned subtrees.
#[derive(Clone, Debug)]
pub struct ScanResult {
    pub projects: Vec<ProjectTarget>,
    pub ignored_paths: Vec<String>,
}

/// An exact copy of a discovered-project record.
pub fn clone_project(p: &ProjectTarget) -> (r: ProjectTarget)
    ensures
        r == *p,
{
    ProjectTarget {
        project_path: p.project_path.clone(),
        target_path: p.target_path.clone(),
        project_name: p.project_name.clone(),
        fullname: p.fullname.clone(),
        target_size: p.target_size,
        errors: p.errors,
    }
}

/// The name of the marker file that identifies a project directory.
pub open spec fn marker_file_name() -> Seq<char> {
    "Cargo.toml"@
}

/// The name of a project's output directory.
pub open spec fn output_dir_name() -> Seq<char> {
    "target"@
}

/// The listing contains the marker as a regular file.
pub open spec fn has_marker_file(entries: Seq<EntryInfo>) -> bool {
    exists|i: int|
        0 <= i < entries.len() && entries[i].is_file && entries[i].name@ == marker_file_name()
}

/// The listing contains the output directory.
pub open spec fn has_output_dir(entries: Seq<EntryInfo>) -> bool {
    exists|i: int|
        0 <= i < entries.len() && entries[i].is_dir && entries[i].name@ == output_dir_name()
}

/// A directory with this listing is a project.
pub open spec fn is_project_listing(entries: Seq<EntryInfo>) -> bool {
    has_marker_file(entries) && has_output_dir(entries)
}

/// Decide from a directory's direct children whether it is a project.
pub fn is_project(entries: &Vec<EntryInfo>) -> (r: bool)
    ensures
        r == is_project_listing(entries@),
{
    let n = entries.len();
    let mut marker = false;
    let mut output = false;
    let mut i: usize = 0;
    while i < n
        invariant
            n == entries@.len(),
            0 <= i <= n,
            marker == (exists|j: int|
                0 <= j < i && entries@[j].is_file && entries@[j].name@ == marker_file_name()),
            output == (exists|j: int|
                0 <= j < i && entries@[j].is_dir && entries@[j].name@ == output_dir_name()),
        decreases n - i,
    {
        let e = &entries[i];
        if e.is_file && str_eq(e.name.as_str(), "Cargo.toml") {
            marker = true;
        }
        if e.is_dir && str_eq(e.name.as_str(), "target") {
            output = true;
        }
        i = i + 1;
    }
    marker && output
}

} // verus!
