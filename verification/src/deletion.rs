//! The deletion engine's bookkeeping: planned byte total, accumulated bytes
//! deleted, and the progress reports emitted along the way.
//!
//! The engine itself runs in the driver, off the caller's path: it measures
//! each target, removes it, and polls until the file system confirms the
//! removal. Every decision about the reported numbers is made here: the
//! total is fixed up front, each completed target advances `bytes_deleted`
//! by its measured size, capped at the total, and the final report states
//! exactly the planned total. The cap keeps every report within the plan —
//! `bytes_deleted` never exceeds `bytes_total`, so a rendered percentage
//! stays within 100 — even when a target measures larger at deletion time
//! than it did when the total was planned; on an unmutated tree the cap
//! never engages and the numbers are the plain sums.

use crate::sizes::lemma_sum_prefix_le;
use crate::sizes::lemma_sum_seq_nonneg;
use crate::sizes::lemma_sum_seq_push;
use crate::sizes::sum_capped;
use crate::sizes::sum_seq;
use vstd::prelude::*;

verus! {

/// One progress report of a deletion run. The displayed percentage is
/// `bytes_deleted / bytes_total`, rendered by the consumer; since
/// `bytes_deleted <= bytes_total` always holds, it lies within 100.
#[derive(Clone, Debug)]
pub struct DeleteProgress {
    pub bytes_deleted: u64,
    pub bytes_total: u64,
}

/// The state of one deletion run over a fixed list of targets.
pub struct DeletionRun {
    /// Sum of the targets' sizes, measured before any deletion begins.
    pub bytes_total: u64,
    /// Bytes reclaimed so far: the sum of completed targets' sizes,
    /// capped at the planned total.
    pub bytes_deleted: u64,
    /// The sizes of the targets completed so far, in completion order.
    pub completed: Ghost<Seq<u64>>,
}

impl DeletionRun {
    /// `bytes_deleted` is always the (saturated) sum of the completed
    /// targets' sizes, capped at the planned total — so it never exceeds
    /// `bytes_total`.
    pub open spec fn wf(self) -> bool {
        &&& self.bytes_deleted <= self.bytes_total
        &&& self.bytes_deleted as int == vstd::math::min(
            sum_capped(self.completed@) as int,
            self.bytes_total as int,
        )
    }

    /// Start a run over targets whose measured sizes are `sizes`, and
    /// produce the initial progress report: zero bytes of the full total.
    pub fn new(sizes: &Vec<u64>) -> (r: (DeletionRun, DeleteProgress))
        ensures
            r.0.wf(),
            r.0.bytes_total == sum_capped(sizes@),
            r.0.bytes_deleted == 0,
            r.0.completed@ == Seq::<u64>::empty(),
            r.1.bytes_deleted == 0,
            r.1.bytes_total == r.0.bytes_total,
    {
        let total = crate::sizes::sum_sizes(sizes);
        let run = DeletionRun {
            bytes_total: total,
            bytes_deleted: 0,
            completed: Ghost(Seq::empty()),
        };
        let progress = DeleteProgress { bytes_deleted: 0, bytes_total: total };
        (run, progress)
    }

    /// Record that one target of measured size `size` has been removed, and
    /// produce the progress report to emit for it. Progress is monotone —
    /// `bytes_deleted` never decreases — and never passes the planned
    /// total, so the final report never regresses below any earlier one.
    pub fn complete_target(&mut self, size: u64) -> (p: DeleteProgress)
        requires
            old(self).wf(),
        ensures
            final(self).wf(),
            final(self).bytes_total == old(self).bytes_total,
            final(self).bytes_deleted as int == vstd::math::min(
                old(self).bytes_deleted.saturating_add(size) as int,
                old(self).bytes_total as int,
            ),
            final(self).bytes_deleted >= old(self).bytes_deleted,
            final(self).bytes_deleted <= final(self).bytes_total,
            final(self).completed@ == old(self).completed@.push(size),
            p.bytes_deleted == final(self).bytes_deleted,
            p.bytes_total == final(self).bytes_total,
    {
        proof {
            lemma_sum_seq_nonneg(self.completed@);
            lemma_sum_seq_push(self.completed@, size);
        }
        let grown = self.bytes_deleted.saturating_add(size);
        self.bytes_deleted = if grown > self.bytes_total {
            self.bytes_total
        } else {
            grown
        };
        proof {
            self.completed@ = self.completed@.push(size);
        }
        DeleteProgress { bytes_deleted: self.bytes_deleted, bytes_total: self.bytes_total }
    }

    /// The final progress report: exactly the planned total, reclaimed in
    /// full, whatever the per-target measurements summed to.
    pub fn finish(&self) -> (p: DeleteProgress)
        ensures
            p.bytes_deleted == self.bytes_total,
            p.bytes_total == self.bytes_total,
    {
        DeleteProgress { bytes_deleted: self.bytes_total, bytes_total: self.bytes_total }
    }
}

/// While the sizes measured per target match the sizes the total was
/// planned from — the file system was not mutated during the run — the cap
/// never engages: after completing the first `k` targets the reported
/// bytes equal exactly the sum of those targets' sizes, within the total.
pub proof fn lemma_deletion_progress_exact(run: DeletionRun, sizes: Seq<u64>, k: int)
    requires
        run.wf(),
        0 <= k <= sizes.len(),
        run.bytes_total == sum_capped(sizes),
        run.completed@ == sizes.take(k),
    ensures
        run.bytes_deleted == sum_capped(sizes.take(k)),
        run.bytes_deleted <= run.bytes_total,
{
    lemma_sum_prefix_le(sizes, k);
    lemma_sum_seq_nonneg(sizes.take(k));
    lemma_sum_seq_nonneg(sizes);
}

} // verus!
