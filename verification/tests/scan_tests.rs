use decargot::aggregate::merge_results;
use decargot::config::unix_config;
use decargot::project::{is_project, EntryInfo, ProjectTarget};
use decargot::walker::{progress_due, ScanWorker};

fn file(name: &str) -> EntryInfo {
    EntryInfo { name: name.to_string(), is_dir: false, is_file: true }
}

fn dir(name: &str) -> EntryInfo {
    EntryInfo { name: name.to_string(), is_dir: true, is_file: false }
}

fn lookup<'a>(fs: &'a [(&'a str, Vec<EntryInfo>)], path: &str) -> Option<&'a Vec<EntryInfo>> {
    fs.iter().find(|(p, _)| *p == path).map(|(_, l)| l)
}

fn target_size_of(sizes: &[(&str, u64)], path: &str) -> u64 {
    sizes.iter().find(|(p, _)| *p == path).map(|(_, s)| *s).unwrap_or(0)
}

/// The key a root is listed under in the simulated tree, with trailing
/// separators dropped the way the scanner normalizes them.
fn root_key(root: &str) -> String {
    let trimmed = root.trim_end_matches('/');
    if trimmed.is_empty() && !root.is_empty() {
        "/".to_string()
    } else {
        trimmed.to_string()
    }
}

/// Drives one worker over a simulated directory tree, the way the real
/// driver does over the file system: observe whether the root exists,
/// list the directory the worker hands out, let the detector decide, and
/// hand listings back. Returns the worker's buffers and every path that
/// was actually listed.
fn drive(
    root: &str,
    fs: &[(&str, Vec<EntryInfo>)],
    sizes: &[(&str, u64)],
) -> (Vec<ProjectTarget>, Vec<String>, Vec<String>) {
    let root_exists = lookup(fs, &root_key(root)).is_some();
    let mut worker = ScanWorker::new(unix_config(), root, root_exists);
    let mut visited: Vec<String> = Vec::new();
    while let Some(pending) = worker.next_dir(false) {
        visited.push(pending.path.clone());
        if let Some(listing) = lookup(fs, pending.path.as_str()) {
            if is_project(listing) {
                let target = format!("{}/target", pending.path);
                let size = target_size_of(sizes, &target);
                worker.record_project(&pending, size);
            } else {
                worker.enqueue_children(&pending, listing);
            }
        }
    }
    (worker.projects, worker.ignored_paths, visited)
}

#[test]
fn project_at_depth_one_with_empty_target() {
    let fs = vec![
        ("/", vec![dir("p1")]),
        ("/p1", vec![file("Cargo.toml"), dir("target")]),
    ];
    let sizes = vec![("/p1/target", 0)];
    let (projects, ignored, _) = drive("/", &fs, &sizes);
    assert_eq!(projects.len(), 1);
    assert_eq!(projects[0].project_path, "/p1");
    assert_eq!(projects[0].target_path, "/p1/target");
    assert_eq!(projects[0].project_name, "p1");
    assert_eq!(projects[0].fullname, "p1");
    assert_eq!(projects[0].target_size, 0);
    assert_eq!(projects[0].errors, 0);
    assert!(ignored.is_empty());
}

#[test]
fn project_inside_ignored_subtree_is_never_visited() {
    let fs = vec![
        ("/", vec![dir("p2")]),
        ("/p2", vec![dir("node_modules")]),
        ("/p2/node_modules", vec![dir("p3")]),
        ("/p2/node_modules/p3", vec![file("Cargo.toml"), dir("target")]),
    ];
    let sizes = vec![("/p2/node_modules/p3/target", 10)];
    let (projects, ignored, visited) = drive("/", &fs, &sizes);
    assert!(projects.is_empty());
    assert_eq!(ignored, vec!["/p2/node_modules".to_string()]);
    assert!(!visited.iter().any(|p| p.starts_with("/p2/node_modules")));
}

#[test]
fn overlapping_roots_yield_one_entry() {
    let fs = vec![
        ("/a", vec![dir("sub")]),
        ("/a/sub", vec![dir("proj")]),
        ("/a/sub/proj", vec![file("Cargo.toml"), dir("target")]),
    ];
    let sizes = vec![("/a/sub/proj/target", 7)];
    let (p1, i1, _) = drive("/a", &fs, &sizes);
    let (p2, i2, _) = drive("/a/sub", &fs, &sizes);
    assert_eq!(p1.len(), 1);
    assert_eq!(p2.len(), 1);
    let outputs = vec![(p1, i1), (p2, i2)];
    let result = merge_results(&outputs);
    assert_eq!(result.projects.len(), 1);
    assert_eq!(result.projects[0].target_path, "/a/sub/proj/target");
    assert_eq!(result.projects[0].target_size, 7);
}

#[test]
fn project_directory_is_a_leaf() {
    // A project's own subdirectories are not inspected for nested projects.
    let fs = vec![
        ("/", vec![dir("p")]),
        ("/p", vec![file("Cargo.toml"), dir("target"), dir("inner")]),
        ("/p/inner", vec![file("Cargo.toml"), dir("target")]),
    ];
    let sizes = vec![("/p/target", 3)];
    let (projects, _, visited) = drive("/", &fs, &sizes);
    assert_eq!(projects.len(), 1);
    assert_eq!(projects[0].project_path, "/p");
    assert!(!visited.contains(&"/p/inner".to_string()));
}

#[test]
fn marker_without_output_dir_is_no_project() {
    let fs = vec![
        ("/", vec![dir("p")]),
        ("/p", vec![file("Cargo.toml"), dir("src")]),
    ];
    let (projects, ignored, _) = drive("/", &fs, &[]);
    assert!(projects.is_empty());
    // "src" is on the noise-name list, so it is pruned rather than walked.
    assert_eq!(ignored, vec!["/p/src".to_string()]);
}

#[test]
fn fullname_is_parent_qualified() {
    let fs = vec![
        ("/work", vec![dir("proj")]),
        ("/work/proj", vec![file("Cargo.toml"), dir("target")]),
    ];
    let (projects, _, _) = drive("/work", &fs, &[]);
    assert_eq!(projects.len(), 1);
    assert_eq!(projects[0].fullname, "work/proj");
}

#[test]
fn cancellation_keeps_partial_results_and_finishes() {
    let fs = vec![
        ("/", vec![dir("p1"), dir("p2")]),
        ("/p1", vec![file("Cargo.toml"), dir("target")]),
        ("/p2", vec![file("Cargo.toml"), dir("target")]),
    ];
    let mut worker = ScanWorker::new(unix_config(), "/", true);
    // Visit the root and one project, then observe a cancellation.
    let root_dir = worker.next_dir(false).unwrap();
    let listing = lookup(&fs, root_dir.path.as_str()).unwrap();
    worker.enqueue_children(&root_dir, listing);
    let first = worker.next_dir(false).unwrap();
    worker.record_project(&first, 5);
    assert!(worker.next_dir(true).is_none());
    assert!(worker.finished);
    // What was found before the cancel point is retained, nothing more.
    assert_eq!(worker.projects.len(), 1);
    let outputs = vec![(worker.projects, worker.ignored_paths)];
    let result = merge_results(&outputs);
    assert_eq!(result.projects.len(), 1);
    // The partial result is a subset of the uncancelled scan's.
    let (full, _, _) = drive("/", &fs, &[]);
    assert!(result
        .projects
        .iter()
        .all(|p| full.iter().any(|q| q.target_path == p.target_path)));
}

#[test]
fn counters_account_for_every_entry() {
    let fs = vec![
        ("/", vec![dir("a"), dir("node_modules")]),
        ("/a", vec![]),
    ];
    let mut worker = ScanWorker::new(unix_config(), "/", true);
    while let Some(pending) = worker.next_dir(false) {
        if let Some(listing) = lookup(&fs, pending.path.as_str()) {
            worker.enqueue_children(&pending, listing);
        }
    }
    // Visited: "/" and "/a". Pruned: "/node_modules".
    assert_eq!(worker.current, 2);
    assert_eq!(worker.ignored, 1);
    assert_eq!(worker.total, 3);
    let progress = worker.progress();
    assert_eq!(progress.root, "/");
    assert_eq!(progress.current, 2);
    assert_eq!(progress.total, 3);
    assert_eq!(progress.ignored, 1);
}

#[test]
fn denylisted_root_is_pruned_up_front() {
    let worker = ScanWorker::new(unix_config(), "/tmp/scratch", true);
    assert_eq!(worker.ignored_paths, vec!["/tmp/scratch".to_string()]);
    assert_eq!(worker.ignored, 1);
    assert_eq!(worker.total, 1);
    assert_eq!(worker.current, 0);
}

#[test]
fn root_named_like_noise_is_still_scanned() {
    // The name rule never applies to the root itself.
    let fs = vec![
        ("/x/node_modules", vec![dir("p")]),
        ("/x/node_modules/p", vec![file("Cargo.toml"), dir("target")]),
    ];
    let (projects, _, _) = drive("/x/node_modules", &fs, &[]);
    assert_eq!(projects.len(), 1);
    assert_eq!(projects[0].project_path, "/x/node_modules/p");
}

#[test]
fn nonexistent_root_degrades_to_zero_visits() {
    // A root that does not exist contributes nothing: zero directories
    // visited, zero projects, nothing ignored, no error surfaced.
    let mut worker = ScanWorker::new(unix_config(), "/gone", false);
    assert!(worker.next_dir(false).is_none());
    assert!(worker.finished);
    assert_eq!(worker.current, 0);
    assert_eq!(worker.total, 0);
    assert_eq!(worker.ignored, 0);
    assert!(worker.projects.is_empty());
    assert!(worker.ignored_paths.is_empty());
}

#[test]
fn nonexistent_root_leaves_other_roots_unaffected() {
    let fs = vec![
        ("/work", vec![dir("proj")]),
        ("/work/proj", vec![file("Cargo.toml"), dir("target")]),
    ];
    let (good, good_ignored, _) = drive("/work", &fs, &[]);
    let (gone, gone_ignored, visited) = drive("/gone", &fs, &[]);
    assert!(gone.is_empty());
    assert!(gone_ignored.is_empty());
    assert!(visited.is_empty());
    let outputs = vec![(good, good_ignored), (gone, gone_ignored)];
    let result = merge_results(&outputs);
    assert_eq!(result.projects.len(), 1);
    assert_eq!(result.projects[0].project_path, "/work/proj");
}

#[test]
fn unreadable_root_counts_only_itself() {
    // The root exists but its listing fails: it was visited, nothing more.
    let mut worker = ScanWorker::new(unix_config(), "/locked", true);
    let pending = worker.next_dir(false).unwrap();
    assert_eq!(pending.path, "/locked");
    // The driver's read fails; it skips the directory and asks again.
    assert!(worker.next_dir(false).is_none());
    assert_eq!(worker.current, 1);
    assert_eq!(worker.total, 1);
    assert!(worker.projects.is_empty());
}

#[test]
fn progress_throttle_emits_immediately_then_after_the_interval() {
    assert!(progress_due(false, 0));
    assert!(!progress_due(true, 0));
    assert!(!progress_due(true, 500));
    assert!(progress_due(true, 501));
}

#[test]
fn trailing_separator_on_root_is_normalized() {
    let fs = vec![
        ("/work", vec![dir("proj")]),
        ("/work/proj", vec![file("Cargo.toml"), dir("target")]),
    ];
    let (projects, _, _) = drive("/work/", &fs, &[]);
    assert_eq!(projects.len(), 1);
    assert_eq!(projects[0].project_path, "/work/proj");
}
