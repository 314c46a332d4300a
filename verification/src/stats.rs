//! Run-wide outcome statistics.
//!
//! One batch run classifies every processed track into exactly one of three
//! buckets — success, failed, skipped — and the final summary reports the
//! bucket counts next to the total number of tracks.

use vstd::prelude::*;
use vstd::string::StringExecFns;
use crate::numfmt::{dec_str, push_decimal};

verus! {

/// Terminal classification of one processed track.
#[derive(Clone, Copy, Debug, PartialEq, Eq, Structural)]
pub enum Bucket {
    Success,
    Failed,
    Skipped,
}

/// Aggregate counters for one batch run.
#[derive(Clone, Debug)]
pub struct ProcessingStats {
    pub success: usize,
    pub failed: usize,
    pub skipped: usize,
    pub total: usize,
}

/// How many entries of `s` fall into bucket `b`.
pub open spec fn count_bucket(s: Seq<Bucket>, b: Bucket) -> nat
    decreases s.len(),
{
    if s.len() == 0 {
        0
    } else {
        count_bucket(s.drop_last(), b) + if s.last() == b {
            1nat
        } else {
            0nat
        }
    }
}

/// Every track lands in exactly one bucket, so the three counts of any
/// outcome sequence partition its length.
pub proof fn lemma_bucket_counts_partition(s: Seq<Bucket>)
    ensures
        count_bucket(s, Bucket::Success) + count_bucket(s, Bucket::Failed) + count_bucket(
            s,
            Bucket::Skipped,
        ) == s.len(),
    decreases s.len(),
{
    if s.len() > 0 {
        lemma_bucket_counts_partition(s.drop_last());
    }
}

impl ProcessingStats {
    /// Counters as mathematical integers.
    pub open spec fn sum(self) -> int {
        self.success + self.failed + self.skipped
    }

    pub fn new(total: usize) -> (s: ProcessingStats)
        ensures
            s.success == 0,
            s.failed == 0,
            s.skipped == 0,
            s.total == total,
    {
        ProcessingStats { success: 0, failed: 0, skipped: 0, total }
    }

    pub fn increment_success(&mut self)
        requires
            old(self).success < usize::MAX,
        ensures
            *final(self) == (ProcessingStats { success: (old(self).success + 1) as usize, ..*old(
                self,
            ) }),
    {
        self.success = self.success + 1;
    }

    pub fn increment_failed(&mut self)
        requires
            old(self).failed < usize::MAX,
        ensures
            *final(self) == (ProcessingStats { failed: (old(self).failed + 1) as usize, ..*old(
                self,
            ) }),
    {
        self.failed = self.failed + 1;
    }

    pub fn increment_skipped(&mut self)
        requires
            old(self).skipped < usize::MAX,
        ensures
            *final(self) == (ProcessingStats { skipped: (old(self).skipped + 1) as usize, ..*old(
                self,
            ) }),
    {
        self.skipped = self.skipped + 1;
    }

    /// Add one track's outcome: exactly the bucket of `b` is incremented,
    /// the other counters and the total are unchanged.
    pub fn record(&mut self, b: Bucket)
        requires
            old(self).sum() < usize::MAX,
        ensures
            final(self).total == old(self).total,
            final(self).success == old(self).success + if b == Bucket::Success {
                1int
            } else {
                0int
            },
            final(self).failed == old(self).failed + if b == Bucket::Failed {
                1int
            } else {
                0int
            },
            final(self).skipped == old(self).skipped + if b == Bucket::Skipped {
                1int
            } else {
                0int
            },
    {
        match b {
            Bucket::Success => self.increment_success(),
            Bucket::Failed => self.increment_failed(),
            Bucket::Skipped => self.increment_skipped(),
        }
    }
}

/// One line of the run summary: a label, a count, and the word "files".
pub open spec fn summary_line_spec(label: Seq<char>, n: int) -> Seq<char> {
    label + dec_str(n) + " files"@
}

impl ProcessingStats {
    /// The four lines of the final summary, in report order: total,
    /// successful, failed, skipped.  The caller decorates and prints them.
    pub fn summary_lines(&self) -> (r: Vec<String>)
        ensures
            r@.len() == 4,
            r@[0]@ == summary_line_spec("Processed: "@, self.total as int),
            r@[1]@ == summary_line_spec("Successful: "@, self.success as int),
            r@[2]@ == summary_line_spec("Failed: "@, self.failed as int),
            r@[3]@ == summary_line_spec(
                "Skipped (existing/instrumental): "@,
                self.skipped as int,
            ),
    {
        let mut lines: Vec<String> = Vec::new();
        let mut l0 = String::from_str("Processed: ");
        push_decimal(&mut l0, self.total as u64);
        l0.append(" files");
        lines.push(l0);
        let mut l1 = String::from_str("Successful: ");
        push_decimal(&mut l1, self.success as u64);
        l1.append(" files");
        lines.push(l1);
        let mut l2 = String::from_str("Failed: ");
        push_decimal(&mut l2, self.failed as u64);
        l2.append(" files");
        lines.push(l2);
        let mut l3 = String::from_str("Skipped (existing/instrumental): ");
        push_decimal(&mut l3, self.skipped as u64);
        l3.append(" files");
        lines.push(l3);
        lines
    }
}

/// Fold a whole run's outcomes into statistics.  The result counts each
/// bucket exactly, and the three counts sum to the total, which is the
/// number of outcomes.
pub fn tally(outcomes: &Vec<Bucket>) -> (s: ProcessingStats)
    ensures
        s.total == outcomes@.len(),
        s.success == count_bucket(outcomes@, Bucket::Success),
        s.failed == count_bucket(outcomes@, Bucket::Failed),
        s.skipped == count_bucket(outcomes@, Bucket::Skipped),
        s.sum() == s.total,
{
    let mut s = ProcessingStats::new(outcomes.len());
    let mut i: usize = 0;
    while i < outcomes.len()
        invariant
            i <= outcomes@.len(),
            s.total == outcomes@.len(),
            s.success == count_bucket(outcomes@.take(i as int), Bucket::Success),
            s.failed == count_bucket(outcomes@.take(i as int), Bucket::Failed),
            s.skipped == count_bucket(outcomes@.take(i as int), Bucket::Skipped),
            s.sum() == i,
        decreases outcomes@.len() - i,
    {
        proof {
            lemma_bucket_counts_partition(outcomes@.take(i as int));
            assert(outcomes@.take(i + 1).drop_last() =~= outcomes@.take(i as int));
        }
        s.record(outcomes[i]);
        i = i + 1;
    }
    proof {
        assert(outcomes@.take(outcomes@.len() as int) =~= outcomes@);
    }
    s
}

} // verus!
