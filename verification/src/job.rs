//! Jobs and their outcomes.
//!
//! A job is one unit of work: render one template with one input document and
//! deliver the output. Jobs are created at ingress, where each request is
//! paired with a generated job identifier, and every job yields exactly one
//! result.

use vstd::prelude::*;

use crate::engine::concat_str;
use crate::errors::RenderError;

verus! {

/// One unit of work: render the template named by `template_id` with `data`
/// and deliver the output under a key derived from `job_id`.
pub struct Job {
    pub job_id: String,
    pub template_id: String,
    pub data: serde_json::Value,
}

/// An incoming request for one job, before a job identifier was assigned.
pub struct JobRequest {
    pub template_id: String,
    pub data: serde_json::Value,
}

/// Whether a job ended in success or in error.
#[derive(Debug, PartialEq, Eq, Structural)]
pub enum JobStatus {
    Success,
    Error,
}

/// The outcome of one job, produced exactly once per job.
pub struct JobResult {
    pub job_id: String,
    pub template_id: String,
    pub status: JobStatus,
    pub s3_key: Option<String>,
    pub file_size: Option<u64>,
    pub error: Option<RenderError>,
}

/// The object-store key of a job's rendered output: `<job_id>.pdf`.
pub open spec fn output_key_spec(job_id: Seq<char>) -> Seq<char> {
    job_id + ".pdf"@
}

/// Builds the object-store key under which a job's output is delivered.
pub fn output_key(job_id: &String) -> (k: String)
    ensures
        k@ == output_key_spec(job_id@),
{
    concat_str(job_id, ".pdf")
}

/// Pairs each incoming request, in order, with its generated job identifier.
/// Each request becomes exactly one job; none is dropped or reordered.
pub fn make_jobs(requests: Vec<JobRequest>, job_ids: Vec<String>) -> (jobs: Vec<Job>)
    requires
        requests@.len() == job_ids@.len(),
    ensures
        jobs@.len() == requests@.len(),
        forall|i: int|
            0 <= i < jobs@.len() ==> {
                &&& (#[trigger] jobs@[i]).job_id == job_ids@[i]
                &&& jobs@[i].template_id == requests@[i].template_id
                &&& jobs@[i].data == requests@[i].data
            },
{
    let ghost orig_requests = requests@;
    let ghost orig_ids = job_ids@;
    let mut requests = requests;
    let mut job_ids = job_ids;
    let mut jobs: Vec<Job> = Vec::new();
    while requests.len() > 0
        invariant
            requests@.len() == job_ids@.len(),
            jobs@.len() + requests@.len() == orig_requests.len(),
            orig_requests.len() == orig_ids.len(),
            requests@ =~= orig_requests.skip(jobs@.len() as int),
            job_ids@ =~= orig_ids.skip(jobs@.len() as int),
            forall|i: int|
                0 <= i < jobs@.len() ==> {
                    &&& (#[trigger] jobs@[i]).job_id == orig_ids[i]
                    &&& jobs@[i].template_id == orig_requests[i].template_id
                    &&& jobs@[i].data == orig_requests[i].data
                },
        decreases requests@.len(),
    {
        let request = requests.remove(0);
        let job_id = job_ids.remove(0);
        jobs.push(
            Job { job_id, template_id: request.template_id, data: request.data },
        );
    }
    jobs
}

} // verus!
