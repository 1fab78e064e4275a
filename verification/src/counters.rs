//! Outcomes of the actions taken under matched roots, and their tally.

use vstd::prelude::*;

verus! {

/// What became of one (matched root, existing target) pair.
#[derive(Debug, Clone, Copy, PartialEq, Eq, Structural)]
pub enum ActionOutcome {
    /// The target directory was deleted.
    Removed,
    /// Dry-run mode: the target was only reported.
    WouldRemove,
    /// Deletion was attempted and failed; the run went on.
    Failed,
}

/// Per-rule-set aggregate: how many targets were removed (or, in a dry
/// run, would have been), and how many deletions failed.
#[derive(Debug, Clone, Copy, PartialEq, Eq, Structural)]
pub struct RunCounters {
    pub cleaned: u64,
    pub failed: u64,
}

/// How many outcomes count as cleaned: removed, or would-remove.
pub open spec fn spec_count_cleaned(outcomes: Seq<ActionOutcome>) -> nat
    decreases outcomes.len(),
{
    if outcomes.len() == 0 {
        0
    } else {
        spec_count_cleaned(outcomes.drop_last()) + if outcomes.last() is Failed {
            0nat
        } else {
            1nat
        }
    }
}

/// How many outcomes are failures.
pub open spec fn spec_count_failed(outcomes: Seq<ActionOutcome>) -> nat
    decreases outcomes.len(),
{
    if outcomes.len() == 0 {
        0
    } else {
        spec_count_failed(outcomes.drop_last()) + if outcomes.last() is Failed {
            1nat
        } else {
            0nat
        }
    }
}

/// Every attempted action is counted exactly once: as cleaned or as
/// failed, never both, never neither.
pub proof fn lemma_counts_partition(outcomes: Seq<ActionOutcome>)
    ensures
        spec_count_cleaned(outcomes) + spec_count_failed(outcomes) == outcomes.len(),
    decreases outcomes.len(),
{
    if outcomes.len() > 0 {
        lemma_counts_partition(outcomes.drop_last());
    }
}

impl RunCounters {
    pub fn new() -> (c: RunCounters)
        ensures
            c.cleaned == 0,
            c.failed == 0,
    {
        RunCounters { cleaned: 0, failed: 0 }
    }

    /// Fold a batch of outcomes into the counters.  Each outcome raises
    /// exactly one counter: a failure raises `failed`, anything else
    /// raises `cleaned` — so one failed deletion never hides another
    /// action, and the failure counter is exactly the number of failures.
    pub fn apply_outcomes(&mut self, outcomes: &Vec<ActionOutcome>)
        requires
            old(self).cleaned + outcomes@.len() <= u64::MAX,
            old(self).failed + outcomes@.len() <= u64::MAX,
        ensures
            final(self).cleaned == old(self).cleaned + spec_count_cleaned(outcomes@),
            final(self).failed == old(self).failed + spec_count_failed(outcomes@),
    {
        let ghost all = outcomes@;
        let mut i: usize = 0;
        while i < outcomes.len()
            invariant
                i <= outcomes@.len(),
                all == outcomes@,
                old(self).cleaned + outcomes@.len() <= u64::MAX,
                old(self).failed + outcomes@.len() <= u64::MAX,
                self.cleaned == old(self).cleaned + spec_count_cleaned(all.take(i as int)),
                self.failed == old(self).failed + spec_count_failed(all.take(i as int)),
            decreases outcomes@.len() - i,
        {
            proof {
                lemma_counts_partition(all.take(i as int));
                assert(all.take(i + 1).drop_last() =~= all.take(i as int));
                assert(all.take(i + 1).last() == all[i as int]);
            }
            match outcomes[i] {
                ActionOutcome::Failed => {
                    self.failed = self.failed + 1;
                },
                _ => {
                    self.cleaned = self.cleaned + 1;
                },
            }
            i += 1;
        }
        proof {
            assert(all.take(outcomes@.len() as int) =~= all);
        }
    }
}

} // verus!
