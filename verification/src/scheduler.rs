//! Aggregation of per-job outcomes.
//!
//! The scheduler proper runs every configured job concurrently, waits for all
//! of them, and collects one boolean outcome per job; that driving loop is
//! I/O and lives outside this crate. The aggregation rule itself is here: the
//! run as a whole succeeds exactly when every job succeeded.

use vstd::prelude::*;

verus! {

/// Whether every job in a batch reported success.
pub open spec fn all_ok(results: Seq<bool>) -> bool {
    forall|i: int| 0 <= i < results.len() ==> results[i]
}

/// Aggregates the per-job outcomes of one run: overall success holds if and
/// only if every individual job succeeded. An empty batch succeeds.
pub fn overall_success(results: &Vec<bool>) -> (r: bool)
    ensures
        r == all_ok(results@),
{
    let mut success = true;
    let mut i: usize = 0;
    while i < results.len()
        invariant
            0 <= i <= results.len(),
            success == all_ok(results@.take(i as int)),
        decreases results.len() - i,
    {
        proof {
            assert(results@.take(i + 1) =~= results@.take(i as int).push(results@[i as int]));
            assert(results@.take(i + 1)[i as int] == results@[i as int]);
            assert(forall|j: int| 0 <= j < i ==> results@.take(i + 1)[j] == results@.take(i as int)[j]);
        }
        success = success && results[i];
        i += 1;
    }
    proof {
        assert(results@.take(results@.len() as int) =~= results@);
    }
    success
}

/// A single failed job fails the whole run, however many other jobs
/// succeeded.
pub proof fn lemma_single_failure_fails(results: Seq<bool>, i: int)
    requires
        0 <= i < results.len(),
        !results[i],
    ensures
        !all_ok(results),
{
}

} // verus!
