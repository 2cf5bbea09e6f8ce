//! Result aggregation.
//!
//! Merges the synchronous render failures and the asynchronous upload
//! outcomes of one batch into a single ordered result list with summary
//! counts. Pure bookkeeping: no I/O and no failure modes of its own.

use vstd::prelude::*;

use crate::job::{JobResult, JobStatus};

verus! {

/// Summary counts over one batch: always `total == success + failed`, and
/// `total` equals the number of results returned.
#[derive(Debug, PartialEq, Eq, Structural)]
pub struct BatchSummary {
    pub total: usize,
    pub success: usize,
    pub failed: usize,
}

/// The response for one batch: one result per job, plus summary counts.
pub struct BatchResponse {
    pub results: Vec<JobResult>,
    pub summary: BatchSummary,
}

/// How many results in the sequence report success.
pub open spec fn count_success(rs: Seq<JobResult>) -> nat
    decreases rs.len(),
{
    if rs.len() == 0 {
        0
    } else {
        count_success(rs.drop_last()) + if rs.last().status is Success {
            1nat
        } else {
            0nat
        }
    }
}

/// Merges the render failures and the upload outcomes of one batch,
/// concatenating the two result lists as each phase produced them and
/// tallying the summary. For every pair of inputs the summary satisfies
/// `total == success + failed == len(results)`.
pub fn combine(render_failures: Vec<JobResult>, upload_outcomes: Vec<JobResult>) -> (resp:
    BatchResponse)
    requires
        render_failures@.len() + upload_outcomes@.len() <= usize::MAX,
    ensures
        resp.results@ == render_failures@ + upload_outcomes@,
        resp.summary.total == resp.results@.len(),
        resp.summary.success == count_success(resp.results@),
        resp.summary.total == resp.summary.success + resp.summary.failed,
{
    let mut results = render_failures;
    let mut upload_outcomes = upload_outcomes;
    results.append(&mut upload_outcomes);
    let total = results.len();
    let mut success: usize = 0;
    let mut i: usize = 0;
    while i < total
        invariant
            total == results@.len(),
            i <= total,
            success == count_success(results@.take(i as int)),
            success <= i,
        decreases total - i,
    {
        proof {
            assert(results@.take(i as int + 1).drop_last() =~= results@.take(i as int));
            assert(results@.take(i as int + 1).last() == results@[i as int]);
        }
        if matches!(results[i].status, JobStatus::Success) {
            success = success + 1;
        }
        i = i + 1;
    }
    proof {
        assert(results@.take(total as int) =~= results@);
    }
    let failed = total - success;
    BatchResponse { results, summary: BatchSummary { total, success, failed } }
}

} // verus!
