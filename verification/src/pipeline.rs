//! The two-phase batch pipeline.
//!
//! Phase one renders the jobs sequentially, in input order, resolving each
//! job's template through the template cache; a job whose template is not yet
//! cached pauses the phase until the caller fetches the raw bytes and hands
//! them back. Phase two hands the rendered outputs to the caller as
//! independent upload tasks and records each task's outcome as it completes,
//! in any order. One job's failure, in either phase, never changes any other
//! job's outcome and never aborts the batch; the finished pipeline aggregates
//! one result per job.

use vstd::prelude::*;

use crate::aggregate::{combine, count_success, BatchResponse};
use crate::context_cache::{RenderContextCache, RenderWithStep};
use crate::engine::{decode_template, render_once, utf8_source};
use crate::errors::RenderError;
use crate::job::{output_key, output_key_spec, Job, JobResult, JobStatus};
use crate::template_cache::{CacheEntry, TemplateCache};

verus! {

/// A job that rendered successfully and now awaits upload.
pub struct RenderedJob {
    pub job_id: String,
    pub template_id: String,
    pub s3_key: String,
    pub bytes: Vec<u8>,
}

/// One upload task handed to the caller: independent of every other task,
/// carrying everything the upload needs.
pub struct UploadTask {
    pub index: usize,
    pub job_id: String,
    pub s3_key: String,
    pub bytes: Vec<u8>,
}

/// The pipeline's record of one started upload, completed exactly once.
pub struct UploadSlot {
    pub job_id: String,
    pub template_id: String,
    pub s3_key: String,
    pub size: u64,
    pub outcome: Option<JobResult>,
}

/// What the render phase asks of its caller next.
pub enum RenderStep {
    /// The front job rendered; its output awaits upload.
    Rendered,
    /// The front job failed to render; its error result is recorded.
    RenderFailed,
    /// The front job's template is not cached: fetch these raw bytes and hand
    /// them to `supply_template`.
    NeedTemplate(String),
    /// Every job has been rendered or recorded as failed.
    PhaseDone,
}

/// What publishing fetched template bytes led to.
pub enum SupplyStep {
    /// The bytes decoded; the template is now cached and the front job will
    /// render from it next.
    Published,
    /// The fetch or the decode failed; the front job's error result is
    /// recorded and the batch moves on.
    Failed,
}

/// How one upload task ended.
pub enum UploadOutcome {
    /// The output was written to the object store.
    Delivered,
    /// The object store reported a write failure.
    Failed(String),
    /// The task crashed before reporting; converted to a per-job error,
    /// never propagated to the batch.
    Crashed(String),
}

/// A render failure's result: an error with no output location and the
/// failure recorded.
pub open spec fn failure_result_wf(r: JobResult) -> bool {
    &&& r.status is Error
    &&& r.s3_key is None
    &&& r.file_size is None
    &&& r.error is Some
}

/// How a completed upload slot's recorded result relates to the slot.
pub open spec fn slot_result_wf(s: UploadSlot, r: JobResult) -> bool {
    &&& r.job_id == s.job_id
    &&& r.template_id == s.template_id
    &&& (r.status is Success ==> {
        &&& r.s3_key == Some(s.s3_key)
        &&& r.file_size == Some(s.size)
        &&& r.error is None
    })
    &&& (r.status is Error ==> failure_result_wf(r))
}

/// The results recorded in a sequence of completed upload slots, in order.
pub open spec fn slot_results(s: Seq<UploadSlot>) -> Seq<JobResult>
    decreases s.len(),
{
    if s.len() == 0 {
        Seq::empty()
    } else {
        slot_results(s.drop_last()).push(s.last().outcome->Some_0)
    }
}

/// Each completed slot contributes exactly its own recorded result, at its
/// own position.
pub proof fn lemma_slot_results_index(s: Seq<UploadSlot>, j: int)
    requires
        0 <= j < s.len(),
    ensures
        slot_results(s).len() == s.len(),
        slot_results(s)[j] == s[j].outcome->Some_0,
    decreases s.len(),
{
    lemma_slot_results_len(s);
    if j < s.len() - 1 {
        lemma_slot_results_index(s.drop_last(), j);
    }
}

/// A sequence of slots yields one result per slot.
pub proof fn lemma_slot_results_len(s: Seq<UploadSlot>)
    ensures
        slot_results(s).len() == s.len(),
    decreases s.len(),
{
    if s.len() > 0 {
        lemma_slot_results_len(s.drop_last());
    }
}

/// Law: one upload task's outcome determines only its own job's result.
/// If two runs of the upload phase record the same outcomes for every slot
/// but one, then every other job's result in the finished batch is the same
/// in both runs — a failure of the differing task cannot change any other
/// job's outcome.
pub proof fn lemma_upload_outcome_isolated(a: Seq<UploadSlot>, b: Seq<UploadSlot>, i: int)
    requires
        a.len() == b.len(),
        0 <= i < a.len(),
        forall|j: int| 0 <= j < a.len() && j != i ==> a[j] == b[j],
    ensures
        slot_results(a).len() == slot_results(b).len(),
        forall|j: int|
            0 <= j < a.len() && j != i ==> slot_results(a)[j] == slot_results(b)[j],
{
    lemma_slot_results_len(a);
    lemma_slot_results_len(b);
    assert forall|j: int| 0 <= j < a.len() && j != i implies slot_results(a)[j] == slot_results(
        b,
    )[j] by {
        lemma_slot_results_index(a, j);
        lemma_slot_results_index(b, j);
    }
}

/// One batch in flight: the jobs still to render, the failures and rendered
/// outputs of phase one, and the upload slots of phase two.
pub struct BatchPipeline {
    total: usize,
    pending: Vec<Job>,
    failures: Vec<JobResult>,
    rendered: Vec<RenderedJob>,
    uploads: Vec<UploadSlot>,
    uploads_started: bool,
}

impl BatchPipeline {
    /// How many jobs the batch was created with.
    pub closed spec fn total_spec(&self) -> nat {
        self.total as nat
    }

    /// The jobs not yet rendered, in input order.
    pub closed spec fn pending_jobs(&self) -> Seq<Job> {
        self.pending@
    }

    /// The per-job error results recorded so far by the render phase.
    pub closed spec fn failures(&self) -> Seq<JobResult> {
        self.failures@
    }

    /// The jobs rendered so far and not yet handed out for upload.
    pub closed spec fn rendered_jobs(&self) -> Seq<RenderedJob> {
        self.rendered@
    }

    /// The upload slots, one per rendered job, once uploads started.
    pub closed spec fn uploads(&self) -> Seq<UploadSlot> {
        self.uploads@
    }

    /// Whether the upload phase has started.
    pub closed spec fn uploads_started(&self) -> bool {
        self.uploads_started
    }

    /// Every job is in exactly one place, and everything recorded is
    /// well-formed.
    pub open spec fn wf(&self) -> bool {
        &&& self.total_spec() == self.pending_jobs().len() + self.failures().len()
            + self.rendered_jobs().len() + self.uploads().len()
        &&& !self.uploads_started() ==> self.uploads().len() == 0
        &&& self.uploads_started() ==> self.pending_jobs().len() == 0
            && self.rendered_jobs().len() == 0
        &&& forall|i: int|
            0 <= i < self.failures().len() ==> failure_result_wf(#[trigger] self.failures()[i])
        &&& forall|i: int|
            0 <= i < self.rendered_jobs().len() ==> (#[trigger] self.rendered_jobs()[i]).s3_key@
                == output_key_spec(self.rendered_jobs()[i].job_id@)
        &&& forall|i: int|
            0 <= i < self.uploads().len() ==> {
                &&& (#[trigger] self.uploads()[i]).s3_key@ == output_key_spec(
                    self.uploads()[i].job_id@,
                )
                &&& (self.uploads()[i].outcome matches Some(r) ==> slot_result_wf(
                    self.uploads()[i],
                    r,
                ))
            }
    }

    /// Starts a batch over the given jobs, in their order.
    pub fn new(jobs: Vec<Job>) -> (p: BatchPipeline)
        ensures
            p.wf(),
            p.pending_jobs() == jobs@,
            p.failures() == Seq::<JobResult>::empty(),
            p.rendered_jobs() == Seq::<RenderedJob>::empty(),
            p.uploads() == Seq::<UploadSlot>::empty(),
            !p.uploads_started(),
            p.total_spec() == jobs@.len(),
    {
        let total = jobs.len();
        BatchPipeline {
            total,
            pending: jobs,
            failures: Vec::new(),
            rendered: Vec::new(),
            uploads: Vec::new(),
            uploads_started: false,
        }
    }

    /// Records the front job as failed with the given error and moves on to
    /// the next job.
    fn fail_front(&mut self, error: RenderError)
        requires
            old(self).wf(),
            !old(self).uploads_started(),
            old(self).pending_jobs().len() > 0,
        ensures
            final(self).wf(),
            !final(self).uploads_started(),
            final(self).total_spec() == old(self).total_spec(),
            final(self).pending_jobs() == old(self).pending_jobs().skip(1),
            final(self).rendered_jobs() == old(self).rendered_jobs(),
            final(self).uploads() == old(self).uploads(),
            final(self).failures() == old(self).failures().push(
                final(self).failures().last(),
            ),
            ({
                let r = final(self).failures().last();
                let j = old(self).pending_jobs()[0];
                &&& r.job_id == j.job_id
                &&& r.template_id == j.template_id
                &&& failure_result_wf(r)
                &&& r.error == Some(error)
            }),
    {
        let job = self.pending.remove(0);
        let result = JobResult {
            job_id: job.job_id,
            template_id: job.template_id,
            status: JobStatus::Error,
            s3_key: None,
            file_size: None,
            error: Some(error),
        };
        self.failures.push(result);
        proof {
            assert(self.failures@.drop_last() =~= old(self).failures@);
        }
    }

    /// Renders the front job, in input order, against the template cache.
    ///
    /// A cached template is used as published, without any re-fetch: the
    /// cache is never changed here, and a template is requested only when it
    /// has no published entry. A render failure is recorded against the front
    /// job alone; no failure stops the phase.
    pub fn render_next(&mut self, cache: &TemplateCache) -> (step: RenderStep)
        requires
            old(self).wf(),
            !old(self).uploads_started(),
            cache.wf(),
        ensures
            final(self).wf(),
            !final(self).uploads_started(),
            final(self).total_spec() == old(self).total_spec(),
            final(self).uploads() == old(self).uploads(),
            match step {
                RenderStep::PhaseDone => *final(self) == *old(self) && old(
                    self,
                ).pending_jobs().len() == 0,
                RenderStep::NeedTemplate(t) => {
                    &&& *final(self) == *old(self)
                    &&& old(self).pending_jobs().len() > 0
                    &&& t@ == old(self).pending_jobs()[0].template_id@
                    &&& !cache@.dom().contains(t@)
                },
                RenderStep::Rendered => {
                    &&& old(self).pending_jobs().len() > 0
                    &&& cache@.dom().contains(old(self).pending_jobs()[0].template_id@)
                    &&& final(self).pending_jobs() == old(self).pending_jobs().skip(1)
                    &&& final(self).failures() == old(self).failures()
                    &&& final(self).rendered_jobs() == old(self).rendered_jobs().push(
                        final(self).rendered_jobs().last(),
                    )
                    &&& ({
                        let r = final(self).rendered_jobs().last();
                        let j = old(self).pending_jobs()[0];
                        &&& r.job_id == j.job_id
                        &&& r.template_id == j.template_id
                        &&& r.s3_key@ == output_key_spec(j.job_id@)
                    })
                },
                RenderStep::RenderFailed => {
                    &&& old(self).pending_jobs().len() > 0
                    &&& cache@.dom().contains(old(self).pending_jobs()[0].template_id@)
                    &&& final(self).pending_jobs() == old(self).pending_jobs().skip(1)
                    &&& final(self).rendered_jobs() == old(self).rendered_jobs()
                    &&& final(self).failures() == old(self).failures().push(
                        final(self).failures().last(),
                    )
                    &&& ({
                        let r = final(self).failures().last();
                        let j = old(self).pending_jobs()[0];
                        &&& r.job_id == j.job_id
                        &&& r.template_id == j.template_id
                        &&& failure_result_wf(r)
                        &&& r.error matches Some(e) && e is RenderingError
                    })
                },
            },
    {
        if self.pending.len() == 0 {
            return RenderStep::PhaseDone;
        }
        match cache.lookup(&self.pending[0].template_id) {
            None => RenderStep::NeedTemplate(self.pending[0].template_id.clone()),
            Some(entry) => {
                let outcome = render_once(&entry.source, &self.pending[0].data);
                match outcome {
                    Ok(Some(bytes)) => {
                        let job = self.pending.remove(0);
                        let s3_key = output_key(&job.job_id);
                        self.rendered.push(
                            RenderedJob {
                                job_id: job.job_id,
                                template_id: job.template_id,
                                s3_key,
                                bytes,
                            },
                        );
                        proof {
                            assert(self.rendered@.drop_last() =~= old(self).rendered@);
                        }
                        RenderStep::Rendered
                    },
                    Ok(None) => {
                        self.fail_front(
                            RenderError::RenderingError("render produced no output".to_owned()),
                        );
                        RenderStep::RenderFailed
                    },
                    Err(message) => {
                        self.fail_front(RenderError::RenderingError(message));
                        RenderStep::RenderFailed
                    },
                }
            },
        }
    }

    /// Publishes the outcome of fetching the front job's template.
    ///
    /// Fetched bytes that decode are published in the cache under the front
    /// job's template identifier — overwriting any entry a racing writer
    /// published, so exactly one entry stands — and the front job is left to
    /// render from them next. A fetch error or undecodable bytes fail the
    /// front job alone, leave the cache unchanged, and the batch moves on.
    pub fn supply_template(
        &mut self,
        cache: &mut TemplateCache,
        fetched: Result<Vec<u8>, String>,
    ) -> (step: SupplyStep)
        requires
            old(self).wf(),
            !old(self).uploads_started(),
            old(self).pending_jobs().len() > 0,
            old(cache).wf(),
        ensures
            final(self).wf(),
            final(cache).wf(),
            !final(self).uploads_started(),
            final(self).total_spec() == old(self).total_spec(),
            final(self).uploads() == old(self).uploads(),
            final(self).rendered_jobs() == old(self).rendered_jobs(),
            match fetched {
                Ok(bytes) => match utf8_source(bytes@) {
                    Some(_) => {
                        &&& step is Published
                        &&& *final(self) == *old(self)
                        &&& final(cache)@ == old(cache)@.insert(
                            old(self).pending_jobs()[0].template_id@,
                            bytes@,
                        )
                    },
                    None => {
                        &&& step is Failed
                        &&& *final(cache) == *old(cache)
                        &&& final(self).pending_jobs() == old(self).pending_jobs().skip(1)
                        &&& final(self).failures() == old(self).failures().push(
                            final(self).failures().last(),
                        )
                        &&& ({
                            let r = final(self).failures().last();
                            let j = old(self).pending_jobs()[0];
                            &&& r.job_id == j.job_id
                            &&& r.template_id == j.template_id
                            &&& failure_result_wf(r)
                            &&& r.error matches Some(e) && e is CompileError
                        })
                    },
                },
                Err(message) => {
                    &&& step is Failed
                    &&& *final(cache) == *old(cache)
                    &&& final(self).pending_jobs() == old(self).pending_jobs().skip(1)
                    &&& final(self).failures() == old(self).failures().push(
                        final(self).failures().last(),
                    )
                    &&& ({
                        let r = final(self).failures().last();
                        let j = old(self).pending_jobs()[0];
                        &&& r.job_id == j.job_id
                        &&& r.template_id == j.template_id
                        &&& failure_result_wf(r)
                        &&& r.error == Some(RenderError::FetchError(message))
                    })
                },
            },
    {
        match fetched {
            Ok(bytes) => match decode_template(&bytes) {
                Ok(source) => {
                    let template_id = self.pending[0].template_id.clone();
                    cache.insert(template_id, CacheEntry { raw: bytes, source });
                    SupplyStep::Published
                },
                Err(message) => {
                    self.fail_front(RenderError::CompileError(message));
                    SupplyStep::Failed
                },
            },
            Err(message) => {
                self.fail_front(RenderError::FetchError(message));
                SupplyStep::Failed
            },
        }
    }

    /// Renders the front job, in input order, through the render-context
    /// cache: the job's data is rendered by the reusable context bound to its
    /// template, under that template's exclusive-access mark, which is free
    /// again on return. A template with no installed context pauses the phase
    /// until the caller fetches its source and hands it to `supply_context`.
    /// A render failure is recorded against the front job alone.
    pub fn render_next_with_contexts(&mut self, contexts: &mut RenderContextCache) -> (step:
        RenderStep)
        requires
            old(self).wf(),
            !old(self).uploads_started(),
            old(contexts).wf(),
            forall|t: Seq<char>|
                old(contexts)@.dom().contains(t) ==> old(contexts)@[t] == false,
        ensures
            final(self).wf(),
            final(contexts).wf(),
            final(contexts)@ == old(contexts)@,
            !final(self).uploads_started(),
            final(self).total_spec() == old(self).total_spec(),
            final(self).uploads() == old(self).uploads(),
            match step {
                RenderStep::PhaseDone => *final(self) == *old(self) && old(
                    self,
                ).pending_jobs().len() == 0,
                RenderStep::NeedTemplate(t) => {
                    &&& *final(self) == *old(self)
                    &&& old(self).pending_jobs().len() > 0
                    &&& t@ == old(self).pending_jobs()[0].template_id@
                    &&& !old(contexts)@.dom().contains(t@)
                },
                RenderStep::Rendered => {
                    &&& old(self).pending_jobs().len() > 0
                    &&& old(contexts)@.dom().contains(old(self).pending_jobs()[0].template_id@)
                    &&& final(self).pending_jobs() == old(self).pending_jobs().skip(1)
                    &&& final(self).failures() == old(self).failures()
                    &&& final(self).rendered_jobs() == old(self).rendered_jobs().push(
                        final(self).rendered_jobs().last(),
                    )
                    &&& ({
                        let r = final(self).rendered_jobs().last();
                        let j = old(self).pending_jobs()[0];
                        &&& r.job_id == j.job_id
                        &&& r.template_id == j.template_id
                        &&& r.s3_key@ == output_key_spec(j.job_id@)
                    })
                },
                RenderStep::RenderFailed => {
                    &&& old(self).pending_jobs().len() > 0
                    &&& old(contexts)@.dom().contains(old(self).pending_jobs()[0].template_id@)
                    &&& final(self).pending_jobs() == old(self).pending_jobs().skip(1)
                    &&& final(self).rendered_jobs() == old(self).rendered_jobs()
                    &&& final(self).failures() == old(self).failures().push(
                        final(self).failures().last(),
                    )
                    &&& ({
                        let r = final(self).failures().last();
                        let j = old(self).pending_jobs()[0];
                        &&& r.job_id == j.job_id
                        &&& r.template_id == j.template_id
                        &&& failure_result_wf(r)
                        &&& r.error matches Some(e) && e is RenderingError
                    })
                },
            },
    {
        if self.pending.len() == 0 {
            return RenderStep::PhaseDone;
        }
        match contexts.render_with(&self.pending[0].template_id, &self.pending[0].data) {
            RenderWithStep::NeedContext => RenderStep::NeedTemplate(
                self.pending[0].template_id.clone(),
            ),
            RenderWithStep::Busy => {
                proof {
                    assert(false);
                }
                RenderStep::PhaseDone
            },
            RenderWithStep::Rendered(bytes) => {
                let job = self.pending.remove(0);
                let s3_key = output_key(&job.job_id);
                self.rendered.push(
                    RenderedJob { job_id: job.job_id, template_id: job.template_id, s3_key, bytes },
                );
                proof {
                    assert(self.rendered@.drop_last() =~= old(self).rendered@);
                }
                RenderStep::Rendered
            },
            RenderWithStep::RenderFailed(error) => {
                self.fail_front(error);
                RenderStep::RenderFailed
            },
        }
    }

    /// Publishes the outcome of fetching the front job's template source as
    /// a fresh render context.
    ///
    /// Fetched bytes that decode install a context for the front job's
    /// template, marked free, ready for every later render of that template.
    /// A fetch error or undecodable bytes fail the front job alone, leave
    /// the context cache unchanged, and the batch moves on.
    pub fn supply_context(
        &mut self,
        contexts: &mut RenderContextCache,
        fetched: Result<Vec<u8>, String>,
    ) -> (step: SupplyStep)
        requires
            old(self).wf(),
            !old(self).uploads_started(),
            old(self).pending_jobs().len() > 0,
            old(contexts).wf(),
            !old(contexts)@.dom().contains(old(self).pending_jobs()[0].template_id@),
        ensures
            final(self).wf(),
            final(contexts).wf(),
            !final(self).uploads_started(),
            final(self).total_spec() == old(self).total_spec(),
            final(self).uploads() == old(self).uploads(),
            final(self).rendered_jobs() == old(self).rendered_jobs(),
            match fetched {
                Ok(bytes) => match utf8_source(bytes@) {
                    Some(_) => {
                        &&& step is Published
                        &&& *final(self) == *old(self)
                        &&& final(contexts)@ == old(contexts)@.insert(
                            old(self).pending_jobs()[0].template_id@,
                            false,
                        )
                    },
                    None => {
                        &&& step is Failed
                        &&& final(contexts)@ == old(contexts)@
                        &&& final(self).pending_jobs() == old(self).pending_jobs().skip(1)
                        &&& final(self).failures() == old(self).failures().push(
                            final(self).failures().last(),
                        )
                        &&& ({
                            let r = final(self).failures().last();
                            let j = old(self).pending_jobs()[0];
                            &&& r.job_id == j.job_id
                            &&& r.template_id == j.template_id
                            &&& failure_result_wf(r)
                            &&& r.error matches Some(e) && e is CompileError
                        })
                    },
                },
                Err(message) => {
                    &&& step is Failed
                    &&& final(contexts)@ == old(contexts)@
                    &&& final(self).pending_jobs() == old(self).pending_jobs().skip(1)
                    &&& final(self).failures() == old(self).failures().push(
                        final(self).failures().last(),
                    )
                    &&& ({
                        let r = final(self).failures().last();
                        let j = old(self).pending_jobs()[0];
                        &&& r.job_id == j.job_id
                        &&& r.template_id == j.template_id
                        &&& failure_result_wf(r)
                        &&& r.error == Some(RenderError::FetchError(message))
                    })
                },
            },
    {
        match fetched {
            Ok(bytes) => match decode_template(&bytes) {
                Ok(source) => {
                    let template_id = self.pending[0].template_id.clone();
                    contexts.install(template_id, &source);
                    SupplyStep::Published
                },
                Err(message) => {
                    self.fail_front(RenderError::CompileError(message));
                    SupplyStep::Failed
                },
            },
            Err(message) => {
                self.fail_front(RenderError::FetchError(message));
                SupplyStep::Failed
            },
        }
    }

    /// Starts the upload phase: every rendered output becomes one
    /// independent upload task, in render order, and one open slot awaiting
    /// that task's outcome. The tasks share nothing with one another.
    pub fn start_uploads(&mut self) -> (tasks: Vec<UploadTask>)
        requires
            old(self).wf(),
            !old(self).uploads_started(),
            old(self).pending_jobs().len() == 0,
        ensures
            final(self).wf(),
            final(self).uploads_started(),
            final(self).total_spec() == old(self).total_spec(),
            final(self).failures() == old(self).failures(),
            final(self).pending_jobs().len() == 0,
            final(self).rendered_jobs().len() == 0,
            tasks@.len() == old(self).rendered_jobs().len(),
            final(self).uploads().len() == old(self).rendered_jobs().len(),
            forall|i: int|
                0 <= i < tasks@.len() ==> {
                    let t = #[trigger] tasks@[i];
                    let r = old(self).rendered_jobs()[i];
                    &&& t.index == i
                    &&& t.job_id@ == r.job_id@
                    &&& t.s3_key@ == r.s3_key@
                    &&& t.bytes == r.bytes
                },
            forall|i: int|
                0 <= i < final(self).uploads().len() ==> {
                    let s = #[trigger] final(self).uploads()[i];
                    let r = old(self).rendered_jobs()[i];
                    &&& s.job_id == r.job_id
                    &&& s.template_id == r.template_id
                    &&& s.s3_key == r.s3_key
                    &&& s.size == r.bytes@.len()
                    &&& s.outcome is None
                },
    {
        let ghost orig = self.rendered@;
        let mut tasks: Vec<UploadTask> = Vec::new();
        while self.rendered.len() > 0
            invariant
                self.total == old(self).total,
                self.pending@.len() == 0,
                self.failures@ == old(self).failures@,
                !self.uploads_started,
                tasks@.len() == self.uploads@.len(),
                self.uploads@.len() + self.rendered@.len() == orig.len(),
                self.rendered@ =~= orig.skip(self.uploads@.len() as int),
                forall|i: int|
                    0 <= i < orig.len() ==> (#[trigger] orig[i]).s3_key@ == output_key_spec(
                        orig[i].job_id@,
                    ),
                forall|i: int|
                    0 <= i < tasks@.len() ==> {
                        let t = #[trigger] tasks@[i];
                        let r = orig[i];
                        &&& t.index == i
                        &&& t.job_id@ == r.job_id@
                        &&& t.s3_key@ == r.s3_key@
                        &&& t.bytes == r.bytes
                    },
                forall|i: int|
                    0 <= i < self.uploads@.len() ==> {
                        let s = #[trigger] self.uploads@[i];
                        let r = orig[i];
                        &&& s.job_id == r.job_id
                        &&& s.template_id == r.template_id
                        &&& s.s3_key == r.s3_key
                        &&& s.size == r.bytes@.len()
                        &&& s.outcome is None
                    },
            decreases self.rendered@.len(),
        {
            let r = self.rendered.remove(0);
            let index = self.uploads.len();
            let size = r.bytes.len() as u64;
            tasks.push(
                UploadTask {
                    index,
                    job_id: r.job_id.clone(),
                    s3_key: r.s3_key.clone(),
                    bytes: r.bytes,
                },
            );
            self.uploads.push(
                UploadSlot {
                    job_id: r.job_id,
                    template_id: r.template_id,
                    s3_key: r.s3_key,
                    size,
                    outcome: None,
                },
            );
        }
        self.uploads_started = true;
        tasks
    }

    /// Records the outcome of one upload task in that task's slot and in no
    /// other: every other job's state, recorded or still open, is left
    /// exactly as it was, so one task's failure cannot change another job's
    /// outcome.
    pub fn complete_upload(&mut self, index: usize, outcome: UploadOutcome)
        requires
            old(self).wf(),
            old(self).uploads_started(),
            index < old(self).uploads().len(),
            old(self).uploads()[index as int].outcome is None,
        ensures
            final(self).wf(),
            final(self).uploads_started(),
            final(self).total_spec() == old(self).total_spec(),
            final(self).failures() == old(self).failures(),
            final(self).pending_jobs() == old(self).pending_jobs(),
            final(self).rendered_jobs() == old(self).rendered_jobs(),
            final(self).uploads().len() == old(self).uploads().len(),
            forall|j: int|
                0 <= j < final(self).uploads().len() && j != index ==> final(self).uploads()[j]
                    == old(self).uploads()[j],
            ({
                let s0 = old(self).uploads()[index as int];
                let s = final(self).uploads()[index as int];
                &&& s.job_id == s0.job_id
                &&& s.template_id == s0.template_id
                &&& s.s3_key == s0.s3_key
                &&& s.size == s0.size
                &&& s.outcome matches Some(r) && slot_result_wf(s, r) && match outcome {
                    UploadOutcome::Delivered => r.status is Success,
                    UploadOutcome::Failed(m) => r.status is Error && r.error == Some(
                        RenderError::UploadError(m),
                    ),
                    UploadOutcome::Crashed(m) => r.status is Error && r.error == Some(
                        RenderError::TaskFailure(m),
                    ),
                }
            }),
    {
        let mut slot = self.uploads.remove(index);
        let result = match outcome {
            UploadOutcome::Delivered => JobResult {
                job_id: slot.job_id.clone(),
                template_id: slot.template_id.clone(),
                status: JobStatus::Success,
                s3_key: Some(slot.s3_key.clone()),
                file_size: Some(slot.size),
                error: None,
            },
            UploadOutcome::Failed(message) => JobResult {
                job_id: slot.job_id.clone(),
                template_id: slot.template_id.clone(),
                status: JobStatus::Error,
                s3_key: None,
                file_size: None,
                error: Some(RenderError::UploadError(message)),
            },
            UploadOutcome::Crashed(message) => JobResult {
                job_id: slot.job_id.clone(),
                template_id: slot.template_id.clone(),
                status: JobStatus::Error,
                s3_key: None,
                file_size: None,
                error: Some(RenderError::TaskFailure(message)),
            },
        };
        slot.outcome = Some(result);
        proof {
            assert(old(self).uploads@.remove(index as int).insert(index as int, slot)
                =~= old(self).uploads@.update(index as int, slot));
        }
        self.uploads.insert(index, slot);
    }

    /// Closes the batch once every upload slot has its outcome, merging the
    /// render failures with the upload outcomes: exactly one result per job
    /// the batch was created with, and summary counts that always satisfy
    /// `total == success + failed == len(results)`.
    pub fn finalize(self) -> (resp: BatchResponse)
        requires
            self.wf(),
            self.uploads_started(),
            forall|i: int|
                0 <= i < self.uploads().len() ==> (#[trigger] self.uploads()[i]).outcome is Some,
        ensures
            resp.results@ == self.failures() + slot_results(self.uploads()),
            resp.results@.len() == self.total_spec(),
            resp.summary.total == self.total_spec(),
            resp.summary.total == resp.summary.success + resp.summary.failed,
            resp.summary.success == count_success(resp.results@),
    {
        let BatchPipeline { total, pending: _, failures, rendered: _, uploads, uploads_started: _ }
            = self;
        let ghost orig = uploads@;
        let mut uploads = uploads;
        let mut outcomes: Vec<JobResult> = Vec::new();
        while uploads.len() > 0
            invariant
                outcomes@.len() + uploads@.len() == orig.len(),
                uploads@ =~= orig.skip(outcomes@.len() as int),
                forall|i: int| 0 <= i < orig.len() ==> (#[trigger] orig[i]).outcome is Some,
                outcomes@ =~= slot_results(orig.take(outcomes@.len() as int)),
            decreases uploads@.len(),
        {
            let slot = uploads.remove(0);
            proof {
                let k = outcomes@.len() as int;
                assert(orig.take(k + 1).drop_last() =~= orig.take(k));
                assert(orig.take(k + 1).last() == orig[k]);
            }
            match slot.outcome {
                Some(result) => outcomes.push(result),
                None => (),
            }
        }
        proof {
            assert(orig.take(orig.len() as int) =~= orig);
        }
        combine(failures, outcomes)
    }
}

} // verus!
