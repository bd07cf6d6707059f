//! The per-root traversal engine.
//!
//! Each scan root gets one `ScanWorker`. The worker owns an explicit stack
//! of pending directories, the root's monotone counters, and the root's
//! result buffers; a driver loop alternates between asking the worker for
//! the next directory, listing that directory on disk, and handing the
//! listing back. Every decision — what to prune, what to report as a
//! project, what to descend into, what the counters say — is made here;
//! the driver only performs the file-system reads and forwards events.
//!
//! Cancellation is an input: the driver reads the shared token and passes
//! its value in. Once a worker sees it, the worker finishes at once and
//! keeps everything found so far.

use crate::config::ScanConfig;
use crate::policy::matches_ignored_dir;
use crate::policy::should_prune;
use crate::policy::should_prune_spec;
use crate::project::output_dir_name;
use crate::project::EntryInfo;
use crate::project::ProgressInfo;
use crate::project::ProjectTarget;
use crate::text::basename_of;
use crate::text::basename_seq;
use crate::text::join_path;
use crate::text::join_path_seq;
use crate::text::normalize_root;
use crate::text::normalize_root_seq;
use crate::text::parent_name_of;
use crate::text::parent_name_seq;
use vstd::prelude::*;
use vstd::string::StrSliceExecFns;
use vstd::string::StringExecFns;

verus! {

/// The least time between two progress emissions for one root, after the
/// immediate first one.
pub const PROGRESS_INTERVAL_MS: u64 = 500;

/// The throttle on progress events: the first emission happens at once,
/// every later one only after more than the interval has elapsed since
/// the last.
pub open spec fn progress_due_spec(emitted_before: bool, elapsed_ms: u64) -> bool {
    !emitted_before || elapsed_ms > PROGRESS_INTERVAL_MS
}

/// Decide whether a progress event is due, from whether one was emitted
/// before and how many milliseconds have passed since the last one.
pub fn progress_due(emitted_before: bool, elapsed_ms: u64) -> (r: bool)
    ensures
        r == progress_due_spec(emitted_before, elapsed_ms),
{
    !emitted_before || elapsed_ms > PROGRESS_INTERVAL_MS
}

/// A directory waiting to be listed: its full path, its own name, the name
/// of the directory that contains it, and its depth below the scan root.
#[derive(Clone, Debug)]
pub struct PendingDir {
    pub path: String,
    pub name: String,
    pub parent_name: Option<String>,
    pub depth: u64,
}

/// The path of the child entry `e` of the directory `dir`.
pub open spec fn child_path_seq(dir: PendingDir, sep: Seq<char>, e: EntryInfo) -> Seq<char> {
    join_path_seq(dir.path@, sep, e.name@)
}

/// The depth of a child of `dir`.
pub open spec fn child_depth(dir: PendingDir) -> u64 {
    dir.depth.saturating_add(1)
}

/// The parent name a child of `dir` carries for its display name: the name
/// of `dir`, or nothing when `dir` has no name of its own (a bare root).
pub open spec fn child_parent_name(dir: PendingDir) -> Option<Seq<char>> {
    if dir.name@.len() == 0 {
        Option::None
    } else {
        Option::Some(dir.name@)
    }
}

/// Whether the ignore policy prunes the child entry `e` of `dir`.
pub open spec fn child_pruned(cfg: ScanConfig, dir: PendingDir, e: EntryInfo) -> bool {
    should_prune_spec(cfg, child_path_seq(dir, cfg.separator@, e), e.name@, child_depth(dir) as int)
}

/// The paths of the directory children of `dir` that the policy prunes,
/// in listing order.
pub open spec fn pruned_paths(cfg: ScanConfig, dir: PendingDir, entries: Seq<EntryInfo>) -> Seq<
    Seq<char>,
>
    decreases entries.len(),
{
    if entries.len() == 0 {
        Seq::empty()
    } else {
        let rest = pruned_paths(cfg, dir, entries.drop_last());
        let e = entries.last();
        if e.is_dir && child_pruned(cfg, dir, e) {
            rest.push(child_path_seq(dir, cfg.separator@, e))
        } else {
            rest
        }
    }
}

/// The directory children of `dir` that the policy keeps, in listing order:
/// exactly these are descended into.
pub open spec fn kept_children(cfg: ScanConfig, dir: PendingDir, entries: Seq<EntryInfo>) -> Seq<
    EntryInfo,
>
    decreases entries.len(),
{
    if entries.len() == 0 {
        Seq::empty()
    } else {
        let rest = kept_children(cfg, dir, entries.drop_last());
        let e = entries.last();
        if e.is_dir && !child_pruned(cfg, dir, e) {
            rest.push(e)
        } else {
            rest
        }
    }
}

/// Every kept child is a directory that the policy does not prune.
pub proof fn lemma_kept_children_not_pruned(
    cfg: ScanConfig,
    dir: PendingDir,
    entries: Seq<EntryInfo>,
    j: int,
)
    requires
        0 <= j < kept_children(cfg, dir, entries).len(),
    ensures
        kept_children(cfg, dir, entries)[j].is_dir,
        !child_pruned(cfg, dir, kept_children(cfg, dir, entries)[j]),
    decreases entries.len(),
{
    if entries.len() > 0 {
        let rest = kept_children(cfg, dir, entries.drop_last());
        if j < rest.len() {
            lemma_kept_children_not_pruned(cfg, dir, entries.drop_last(), j);
        }
    }
}

/// Every pruned directory child's path is among the recorded pruned paths,
/// so a pruned subtree is never descended into and always shows up in the
/// ignored list.
pub proof fn lemma_pruned_child_recorded(
    cfg: ScanConfig,
    dir: PendingDir,
    entries: Seq<EntryInfo>,
    i: int,
)
    requires
        0 <= i < entries.len(),
        entries[i].is_dir,
        child_pruned(cfg, dir, entries[i]),
    ensures
        pruned_paths(cfg, dir, entries).contains(child_path_seq(dir, cfg.separator@, entries[i])),
    decreases entries.len(),
{
    if i == entries.len() - 1 {
        let p = pruned_paths(cfg, dir, entries);
        assert(entries.last() == entries[i]);
        assert(p.last() == child_path_seq(dir, cfg.separator@, entries[i]));
    } else {
        lemma_pruned_child_recorded(cfg, dir, entries.drop_last(), i);
        let rest = pruned_paths(cfg, dir, entries.drop_last());
        let k = choose|k: int|
            0 <= k < rest.len() && rest[k] == child_path_seq(dir, cfg.separator@, entries[i]);
        assert(pruned_paths(cfg, dir, entries)[k] == rest[k]);
    }
}

/// The display name of a project: its parent directory's name, the
/// separator and its own name, or its own name alone at a tree's top.
pub open spec fn fullname_seq(parent: Option<Seq<char>>, sep: Seq<char>, name: Seq<char>) -> Seq<
    char,
> {
    match parent {
        Option::Some(p) => p + sep + name,
        Option::None => name,
    }
}

/// One root's traversal state.
pub struct ScanWorker {
    pub config: ScanConfig,
    /// The root, as given by the caller, with trailing separators removed.
    pub root: String,
    /// Directories found but not yet listed; the last element is listed next.
    pub stack: Vec<PendingDir>,
    /// Directories visited so far.
    pub current: u64,
    /// Directories visited plus subtrees pruned: all entries accounted for.
    pub total: u64,
    /// Subtrees pruned so far.
    pub ignored: u64,
    /// Projects discovered under this root, in discovery order.
    pub projects: Vec<ProjectTarget>,
    /// Paths of the subtrees pruned under this root, in traversal order.
    pub ignored_paths: Vec<String>,
    /// Set once the root is exhausted or a cancellation was observed.
    pub finished: bool,
}

impl ScanWorker {
    /// The accounted total always equals visited plus pruned, up to the
    /// saturation bound that none of the counters ever passes in practice.
    pub open spec fn counters_wf(self) -> bool {
        self.total as int == vstd::math::min(
            self.current as int + self.ignored as int,
            u64::MAX as int,
        )
    }

    /// No pending directory is one the ignore policy prunes. Since every
    /// directory a worker ever hands out for listing comes off this stack,
    /// nothing inside a pruned subtree is ever listed, counted, or
    /// reported over the whole traversal.
    pub open spec fn stack_unpruned(self) -> bool {
        forall|i: int|
            #![trigger self.stack@[i]]
            0 <= i < self.stack@.len() ==> !should_prune_spec(
                self.config,
                self.stack@[i].path@,
                self.stack@[i].name@,
                self.stack@[i].depth as int,
            )
    }

    pub open spec fn wf(self) -> bool {
        self.config.wf() && self.counters_wf() && self.stack_unpruned()
    }

    /// Set up a worker for one scan root: counters at zero, no results,
    /// and the root directory itself pending at depth 0.
    ///
    /// `root_exists` is the driver's observation of whether the root is a
    /// directory at all. A root that does not exist degrades to nothing:
    /// no pending work, every counter zero, so such a root contributes
    /// zero visited directories and no events, while other roots are
    /// unaffected.
    ///
    /// An existing root is never pruned by its name — a caller may
    /// deliberately scan inside a normally-ignored tree — but it is still
    /// held to the system-path rule: a root on the system denylist starts
    /// out pruned, so the worker begins with nothing pending and the root
    /// recorded as ignored.
    pub fn new(config: ScanConfig, root: &str, root_exists: bool) -> (w: ScanWorker)
        requires
            config.wf(),
        ensures
            w.wf(),
            w.config == config,
            w.root@ == normalize_root_seq(root@, config.separator@),
            w.current == 0,
            w.projects@.len() == 0,
            !w.finished,
            !root_exists ==> {
                &&& w.total == 0
                &&& w.ignored == 0
                &&& w.ignored_paths@.len() == 0
                &&& w.stack@.len() == 0
            },
            root_exists && !matches_ignored_dir(config.ignored_dirs.deep_view(), w.root@) ==> {
                &&& w.total == 0
                &&& w.ignored == 0
                &&& w.ignored_paths@.len() == 0
                &&& w.stack@.len() == 1
                &&& w.stack@[0].path@ == w.root@
                &&& w.stack@[0].name@ == basename_seq(w.root@, config.separator@)
                &&& w.stack@[0].parent_name.deep_view() == parent_name_seq(
                    w.root@,
                    config.separator@,
                )
                &&& w.stack@[0].depth == 0
            },
            root_exists && matches_ignored_dir(config.ignored_dirs.deep_view(), w.root@) ==> {
                &&& w.total == 1
                &&& w.ignored == 1
                &&& w.ignored_paths@.len() == 1
                &&& w.ignored_paths@[0]@ == w.root@
                &&& w.stack@.len() == 0
            },
    {
        let normalized = normalize_root(root, config.separator.as_str());
        let mut stack: Vec<PendingDir> = Vec::new();
        let mut ignored_paths: Vec<String> = Vec::new();
        let mut ignored: u64 = 0;
        let mut total: u64 = 0;
        // A root that was never observed leaves everything at zero.
        if root_exists {
            // Depth 0 disables the name rule, leaving exactly the path rule.
            if should_prune(&config, normalized.as_str(), normalized.as_str(), 0) {
                ignored_paths.push(normalized.clone());
                ignored = 1;
                total = 1;
            } else {
                let name = basename_of(normalized.as_str(), config.separator.as_str());
                let parent_name = parent_name_of(normalized.as_str(), config.separator.as_str());
                let first = PendingDir {
                    path: normalized.clone(),
                    name,
                    parent_name,
                    depth: 0,
                };
                stack.push(first);
            }
        }
        ScanWorker {
            config,
            root: normalized,
            stack,
            current: 0,
            total,
            ignored,
            projects: Vec::new(),
            ignored_paths,
            finished: false,
        }
    }

    /// Hand out the next directory to list, or finish.
    ///
    /// On a cancellation the worker stops at once: nothing more is handed
    /// out, and everything discovered so far stays in the result buffers.
    /// Otherwise the top of the stack is handed out and counted as visited.
    pub fn next_dir(&mut self, cancelled: bool) -> (r: Option<PendingDir>)
        requires
            old(self).wf(),
        ensures
            final(self).wf(),
            final(self).config == old(self).config,
            final(self).root == old(self).root,
            final(self).projects == old(self).projects,
            final(self).ignored_paths == old(self).ignored_paths,
            final(self).ignored == old(self).ignored,
            cancelled || old(self).stack@.len() == 0 ==> {
                &&& r is None
                &&& final(self).finished
                &&& final(self).stack@ == old(self).stack@
                &&& final(self).current == old(self).current
                &&& final(self).total == old(self).total
            },
            !cancelled && old(self).stack@.len() > 0 ==> {
                &&& r == Some(old(self).stack@.last())
                &&& final(self).stack@ == old(self).stack@.drop_last()
                &&& final(self).current == old(self).current.saturating_add(1)
                &&& final(self).total == old(self).total.saturating_add(1)
                &&& final(self).finished == old(self).finished
            },
    {
        if cancelled {
            self.finished = true;
            return None;
        }
        match self.stack.pop() {
            Some(dir) => {
                self.current = self.current.saturating_add(1);
                self.total = self.total.saturating_add(1);
                Some(dir)
            },
            None => {
                self.finished = true;
                None
            },
        }
    }

    /// Record the directory handed back as a discovered project and return
    /// the record, for the driver to emit immediately. The directory is not
    /// descended into: its children are not enqueued.
    ///
    /// `target_size` is the measured recursive size of the project's
    /// output directory.
    pub fn record_project(&mut self, dir: &PendingDir, target_size: u64) -> (p: ProjectTarget)
        requires
            old(self).wf(),
        ensures
            final(self).wf(),
            final(self).config == old(self).config,
            final(self).root == old(self).root,
            final(self).stack == old(self).stack,
            final(self).current == old(self).current,
            final(self).total == old(self).total,
            final(self).ignored == old(self).ignored,
            final(self).ignored_paths == old(self).ignored_paths,
            final(self).finished == old(self).finished,
            final(self).projects@ == old(self).projects@.push(p),
            p.project_path@ == dir.path@,
            p.target_path@ == join_path_seq(dir.path@, old(self).config.separator@, output_dir_name()),
            p.project_name@ == dir.name@,
            p.fullname@ == fullname_seq(
                dir.parent_name.deep_view(),
                old(self).config.separator@,
                dir.name@,
            ),
            p.target_size == target_size,
            p.errors == 0,
    {
        let target_path = join_path(dir.path.as_str(), self.config.separator.as_str(), "target");
        let fullname = match &dir.parent_name {
            Some(parent) => {
                let mut f = parent.clone();
                f.append(self.config.separator.as_str());
                f.append(dir.name.as_str());
                f
            },
            None => dir.name.clone(),
        };
        let p = ProjectTarget {
            project_path: dir.path.clone(),
            target_path,
            project_name: dir.name.clone(),
            fullname,
            target_size,
            errors: 0,
        };
        self.projects.push(crate::project::clone_project(&p));
        p
    }

    /// Work through a listed directory's children: every directory child
    /// the policy prunes is counted and its path recorded in the ignored
    /// list, and every other directory child is enqueued for traversal.
    /// File children are left to the project detector and not walked.
    pub fn enqueue_children(&mut self, dir: &PendingDir, entries: &Vec<EntryInfo>)
        requires
            old(self).wf(),
        ensures
            final(self).wf(),
            final(self).config == old(self).config,
            final(self).root == old(self).root,
            final(self).current == old(self).current,
            final(self).projects == old(self).projects,
            final(self).finished == old(self).finished,
            final(self).ignored as int == vstd::math::min(
                old(self).ignored as int + pruned_paths(old(self).config, *dir, entries@).len(),
                u64::MAX as int,
            ),
            final(self).total as int == vstd::math::min(
                old(self).total as int + pruned_paths(old(self).config, *dir, entries@).len(),
                u64::MAX as int,
            ),
            final(self).ignored_paths@.len() == old(self).ignored_paths@.len() + pruned_paths(
                old(self).config,
                *dir,
                entries@,
            ).len(),
            forall|i: int|
                0 <= i < old(self).ignored_paths@.len() ==> final(self).ignored_paths@[i] == old(
                    self).ignored_paths@[i],
            forall|i: int|
                0 <= i < pruned_paths(old(self).config, *dir, entries@).len() ==> final(
                    self).ignored_paths@[old(self).ignored_paths@.len() + i]@ == pruned_paths(
                    old(self).config,
                    *dir,
                    entries@,
                )[i],
            final(self).stack@.len() == old(self).stack@.len() + kept_children(
                old(self).config,
                *dir,
                entries@,
            ).len(),
            forall|i: int|
                0 <= i < old(self).stack@.len() ==> final(self).stack@[i] == old(self).stack@[i],
            forall|i: int|
                0 <= i < kept_children(old(self).config, *dir, entries@).len() ==> {
                    let nd = final(self).stack@[old(self).stack@.len() + i];
                    let e = #[trigger] kept_children(old(self).config, *dir, entries@)[i];
                    &&& nd.path@ == child_path_seq(*dir, old(self).config.separator@, e)
                    &&& nd.name@ == e.name@
                    &&& nd.parent_name.deep_view() == child_parent_name(*dir)
                    &&& nd.depth == child_depth(*dir)
                },
    {
        let ghost cfg = self.config;
        let ghost stack0 = self.stack@;
        let ghost paths0 = self.ignored_paths@;
        let ghost ignored0 = self.ignored;
        let ghost total0 = self.total;
        let n = entries.len();
        let depth = dir.depth.saturating_add(1);
        let mut j: usize = 0;
        proof {
            assert(entries@.take(0) =~= Seq::<EntryInfo>::empty());
        }
        while j < n
            invariant
                self.wf(),
                n == entries@.len(),
                0 <= j <= n,
                cfg == self.config,
                cfg.wf(),
                depth == child_depth(*dir),
                self.root == old(self).root,
                self.current == old(self).current,
                self.projects == old(self).projects,
                self.finished == old(self).finished,
                self.ignored as int == vstd::math::min(
                    ignored0 as int + pruned_paths(cfg, *dir, entries@.take(j as int)).len(),
                    u64::MAX as int,
                ),
                self.total as int == vstd::math::min(
                    total0 as int + pruned_paths(cfg, *dir, entries@.take(j as int)).len(),
                    u64::MAX as int,
                ),
                self.ignored_paths@.len() == paths0.len() + pruned_paths(
                    cfg,
                    *dir,
                    entries@.take(j as int),
                ).len(),
                forall|i: int| 0 <= i < paths0.len() ==> self.ignored_paths@[i] == paths0[i],
                forall|i: int|
                    0 <= i < pruned_paths(cfg, *dir, entries@.take(j as int)).len() ==> self
                        .ignored_paths@[paths0.len() + i]@ == pruned_paths(
                        cfg,
                        *dir,
                        entries@.take(j as int),
                    )[i],
                self.stack@.len() == stack0.len() + kept_children(
                    cfg,
                    *dir,
                    entries@.take(j as int),
                ).len(),
                forall|i: int| 0 <= i < stack0.len() ==> self.stack@[i] == stack0[i],
                forall|i: int|
                    0 <= i < kept_children(cfg, *dir, entries@.take(j as int)).len() ==> {
                        let nd = self.stack@[stack0.len() + i];
                        let e = #[trigger] kept_children(cfg, *dir, entries@.take(j as int))[i];
                        &&& nd.path@ == child_path_seq(*dir, cfg.separator@, e)
                        &&& nd.name@ == e.name@
                        &&& nd.parent_name.deep_view() == child_parent_name(*dir)
                        &&& nd.depth == child_depth(*dir)
                    },
                ignored0 == old(self).ignored,
                total0 == old(self).total,
                paths0 == old(self).ignored_paths@,
                stack0 == old(self).stack@,
            decreases n - j,
        {
            proof {
                assert(entries@.take(j as int + 1).drop_last() =~= entries@.take(j as int));
                assert(entries@.take(j as int + 1).last() == entries@[j as int]);
            }
            let e = &entries[j];
            if e.is_dir {
                let path = join_path(
                    dir.path.as_str(),
                    self.config.separator.as_str(),
                    e.name.as_str(),
                );
                if should_prune(&self.config, path.as_str(), e.name.as_str(), depth) {
                    self.ignored = self.ignored.saturating_add(1);
                    self.total = self.total.saturating_add(1);
                    self.ignored_paths.push(path);
                } else {
                    let parent_name = if dir.name.as_str().unicode_len() == 0 {
                        None
                    } else {
                        Some(dir.name.clone())
                    };
                    let nd = PendingDir { path, name: e.name.clone(), parent_name, depth };
                    self.stack.push(nd);
                }
            }
            j = j + 1;
        }
        proof {
            assert(entries@.take(n as int) =~= entries@);
        }
    }

    /// A snapshot of this root's counters, for a progress event.
    pub fn progress(&self) -> (p: ProgressInfo)
        ensures
            p.root@ == self.root@,
            p.current == self.current,
            p.total == self.total,
            p.ignored == self.ignored,
    {
        ProgressInfo {
            root: self.root.clone(),
            current: self.current,
            total: self.total,
            ignored: self.ignored,
        }
    }
}

} // verus!
