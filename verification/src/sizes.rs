//! Size accounting: summation of file sizes collected from a directory
//! subtree.
//!
//! The traversal driver gathers the sizes of the regular files under a
//! directory; the byte total itself is computed here. The total saturates at
//! `u64::MAX` instead of overflowing, which no real file system reaches.

use vstd::prelude::*;

verus! {

/// Mathematical sum of a sequence of sizes.
pub open spec fn sum_seq(s: Seq<u64>) -> int
    decreases s.len(),
{
    if s.len() == 0 {
        0
    } else {
        sum_seq(s.drop_last()) + s.last()
    }
}

/// The sum, saturated to fit a `u64`.
pub open spec fn sum_capped(s: Seq<u64>) -> u64 {
    if sum_seq(s) > u64::MAX {
        u64::MAX
    } else {
        sum_seq(s) as u64
    }
}

pub proof fn lemma_sum_seq_nonneg(s: Seq<u64>)
    ensures
        sum_seq(s) >= 0,
    decreases s.len(),
{
    if s.len() > 0 {
        lemma_sum_seq_nonneg(s.drop_last());
    }
}

/// Appending one size adds exactly that size to the sum.
pub proof fn lemma_sum_seq_push(s: Seq<u64>, x: u64)
    ensures
        sum_seq(s.push(x)) == sum_seq(s) + x,
{
    assert(s.push(x).drop_last() =~= s);
}

/// The sum of a prefix never exceeds the sum of the whole sequence.
pub proof fn lemma_sum_prefix_le(s: Seq<u64>, k: int)
    requires
        0 <= k <= s.len(),
    ensures
        sum_seq(s.take(k)) <= sum_seq(s),
    decreases s.len(),
{
    if k == s.len() {
        assert(s.take(k) =~= s);
    } else {
        assert(s.drop_last().take(k) =~= s.take(k));
        lemma_sum_prefix_le(s.drop_last(), k);
        assert(sum_seq(s) == sum_seq(s.drop_last()) + s.last());
    }
}

/// Total of a collection of file sizes, saturating at `u64::MAX`.
pub fn sum_sizes(sizes: &Vec<u64>) -> (r: u64)
    ensures
        r == sum_capped(sizes@),
        sum_seq(sizes@) <= u64::MAX ==> r == sum_seq(sizes@),
{
    let n = sizes.len();
    let mut acc: u64 = 0;
    let mut i: usize = 0;
    while i < n
        invariant
            n == sizes@.len(),
            0 <= i <= n,
            acc == sum_capped(sizes@.take(i as int)),
        decreases n - i,
    {
        proof {
            lemma_sum_seq_nonneg(sizes@.take(i as int));
            lemma_sum_seq_push(sizes@.take(i as int), sizes@[i as int]);
            assert(sizes@.take(i as int).push(sizes@[i as int]) =~= sizes@.take(i as int + 1));
        }
        acc = acc.saturating_add(sizes[i]);
        i = i + 1;
    }
    proof {
        assert(sizes@.take(n as int) =~= sizes@);
        lemma_sum_seq_nonneg(sizes@);
    }
    acc
}

} // verus!
