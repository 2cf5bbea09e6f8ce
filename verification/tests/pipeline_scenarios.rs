//! End-to-end batch scenarios driven through the template-cache render mode.

use render_pipeline::errors::RenderError;
use render_pipeline::job::{make_jobs, Job, JobRequest, JobResult, JobStatus};
use render_pipeline::pipeline::{BatchPipeline, RenderStep, UploadOutcome, UploadTask};
use render_pipeline::template_cache::TemplateCache;

/// A template that renders with any data.
const OK_TEMPLATE: &str = "#set page(width: 200pt, height: 100pt)\nHello #data.name";

/// A template with a syntax error: fetch and decode succeed, rendering fails.
const BROKEN_TEMPLATE: &str = "#set page(width: 200pt height: 100pt";

fn value(json: &str) -> serde_json::Value {
    serde_json::from_str(json).expect("test data must parse")
}

fn job(job_id: &str, template_id: &str, json: &str) -> Job {
    Job {
        job_id: job_id.to_string(),
        template_id: template_id.to_string(),
        data: value(json),
    }
}

/// Runs the render phase against an in-memory template store, returning the
/// number of fetches the pipeline requested.
fn run_render_phase(
    pipeline: &mut BatchPipeline,
    cache: &mut TemplateCache,
    store: &[(&str, &[u8])],
) -> usize {
    let mut fetches = 0;
    loop {
        match pipeline.render_next(cache) {
            RenderStep::PhaseDone => return fetches,
            RenderStep::Rendered | RenderStep::RenderFailed => continue,
            RenderStep::NeedTemplate(template_id) => {
                fetches += 1;
                let fetched = store
                    .iter()
                    .find(|(id, _)| *id == template_id)
                    .map(|(_, bytes)| bytes.to_vec())
                    .ok_or_else(|| format!("no such template: {}", template_id));
                pipeline.supply_template(cache, fetched);
            }
        }
    }
}

/// Completes every upload with the given per-job outcomes.
fn run_upload_phase(
    pipeline: &mut BatchPipeline,
    tasks: Vec<UploadTask>,
    outcome_for: impl Fn(&str) -> UploadOutcome,
) {
    for task in tasks {
        let outcome = outcome_for(&task.job_id);
        pipeline.complete_upload(task.index, outcome);
    }
}

fn result_for<'r>(results: &'r [JobResult], job_id: &str) -> &'r JobResult {
    results
        .iter()
        .find(|r| r.job_id == job_id)
        .expect("every job must have a result")
}

#[test]
fn batch_of_two_success_and_fetch_error() {
    let requests = vec![
        JobRequest { template_id: "exists".to_string(), data: value("{\"name\":\"Ada\"}") },
        JobRequest { template_id: "absent".to_string(), data: value("{\"name\":\"Bob\"}") },
    ];
    let ids = vec!["A".to_string(), "B".to_string()];
    let jobs = make_jobs(requests, ids);

    let mut cache = TemplateCache::new();
    let mut pipeline = BatchPipeline::new(jobs);
    run_render_phase(&mut pipeline, &mut cache, &[("exists", OK_TEMPLATE.as_bytes())]);
    let tasks = pipeline.start_uploads();
    assert_eq!(tasks.len(), 1);
    assert_eq!(tasks[0].job_id, "A");
    assert_eq!(tasks[0].s3_key, "A.pdf");
    assert!(tasks[0].bytes.starts_with(b"%PDF"));
    run_upload_phase(&mut pipeline, tasks, |_| UploadOutcome::Delivered);
    let resp = pipeline.finalize();

    assert_eq!(resp.summary.total, 2);
    assert_eq!(resp.summary.success, 1);
    assert_eq!(resp.summary.failed, 1);
    assert_eq!(resp.results.len(), 2);

    let a = result_for(&resp.results, "A");
    assert_eq!(a.status, JobStatus::Success);
    assert_eq!(a.s3_key.as_deref(), Some("A.pdf"));
    assert!(a.file_size.unwrap() > 0);
    assert!(a.error.is_none());

    let b = result_for(&resp.results, "B");
    assert_eq!(b.status, JobStatus::Error);
    assert!(b.s3_key.is_none());
    assert!(b.file_size.is_none());
    assert!(matches!(b.error, Some(RenderError::FetchError(_))));
}

#[test]
fn shared_template_fetched_once() {
    let jobs = vec![
        job("J1", "shared", "{\"name\":\"one\"}"),
        job("J2", "shared", "{\"name\":\"two\"}"),
        job("J3", "shared", "{\"name\":\"three\"}"),
    ];
    let mut cache = TemplateCache::new();
    let mut pipeline = BatchPipeline::new(jobs);
    let fetches =
        run_render_phase(&mut pipeline, &mut cache, &[("shared", OK_TEMPLATE.as_bytes())]);
    assert_eq!(fetches, 1, "the template must be fetched and compiled only once");

    let tasks = pipeline.start_uploads();
    assert_eq!(tasks.len(), 3);
    run_upload_phase(&mut pipeline, tasks, |_| UploadOutcome::Delivered);
    let resp = pipeline.finalize();
    assert_eq!(resp.summary.total, 3);
    assert_eq!(resp.summary.success, 3);
    assert_eq!(resp.summary.failed, 0);
}

#[test]
fn upload_failure_is_isolated() {
    let jobs = vec![
        job("X", "t", "{\"name\":\"x\"}"),
        job("Y", "t", "{\"name\":\"y\"}"),
    ];
    let mut cache = TemplateCache::new();
    let mut pipeline = BatchPipeline::new(jobs);
    run_render_phase(&mut pipeline, &mut cache, &[("t", OK_TEMPLATE.as_bytes())]);
    let tasks = pipeline.start_uploads();
    assert_eq!(tasks.len(), 2);
    run_upload_phase(&mut pipeline, tasks, |job_id| {
        if job_id == "X" {
            UploadOutcome::Failed("store rejected the write".to_string())
        } else {
            UploadOutcome::Delivered
        }
    });
    let resp = pipeline.finalize();

    assert_eq!(resp.results.len(), 2);
    assert_eq!(resp.summary.total, 2);
    assert_eq!(resp.summary.success, 1);
    assert_eq!(resp.summary.failed, 1);

    let x = result_for(&resp.results, "X");
    assert_eq!(x.status, JobStatus::Error);
    assert!(matches!(x.error, Some(RenderError::UploadError(_))));

    let y = result_for(&resp.results, "Y");
    assert_eq!(y.status, JobStatus::Success);
    assert_eq!(y.s3_key.as_deref(), Some("Y.pdf"));
}

#[test]
fn crashed_upload_task_becomes_task_failure() {
    let jobs = vec![
        job("C", "t", "{\"name\":\"c\"}"),
        job("D", "t", "{\"name\":\"d\"}"),
    ];
    let mut cache = TemplateCache::new();
    let mut pipeline = BatchPipeline::new(jobs);
    run_render_phase(&mut pipeline, &mut cache, &[("t", OK_TEMPLATE.as_bytes())]);
    let tasks = pipeline.start_uploads();
    run_upload_phase(&mut pipeline, tasks, |job_id| {
        if job_id == "C" {
            UploadOutcome::Crashed("task panicked".to_string())
        } else {
            UploadOutcome::Delivered
        }
    });
    let resp = pipeline.finalize();

    assert_eq!(resp.results.len(), 2);
    assert_eq!(resp.summary.total, 2);
    assert_eq!(resp.summary.success, 1);
    assert_eq!(resp.summary.failed, 1);
    let c = result_for(&resp.results, "C");
    assert!(matches!(c.error, Some(RenderError::TaskFailure(_))));
    assert_eq!(result_for(&resp.results, "D").status, JobStatus::Success);
}

#[test]
fn render_failure_does_not_stop_the_batch() {
    let jobs = vec![
        job("good", "ok", "{\"name\":\"fine\"}"),
        job("bad", "broken", "{\"name\":\"fine\"}"),
        job("late", "ok", "{\"name\":\"also fine\"}"),
    ];
    let mut cache = TemplateCache::new();
    let mut pipeline = BatchPipeline::new(jobs);
    run_render_phase(
        &mut pipeline,
        &mut cache,
        &[("ok", OK_TEMPLATE.as_bytes()), ("broken", BROKEN_TEMPLATE.as_bytes())],
    );
    let tasks = pipeline.start_uploads();
    assert_eq!(tasks.len(), 2);
    run_upload_phase(&mut pipeline, tasks, |_| UploadOutcome::Delivered);
    let resp = pipeline.finalize();

    assert_eq!(resp.results.len(), 3);
    assert_eq!(resp.summary.total, 3);
    assert_eq!(resp.summary.success, 2);
    assert_eq!(resp.summary.failed, 1);
    let bad = result_for(&resp.results, "bad");
    assert_eq!(bad.status, JobStatus::Error);
    assert!(matches!(bad.error, Some(RenderError::RenderingError(_))));
    assert_eq!(result_for(&resp.results, "late").status, JobStatus::Success);
}

#[test]
fn summary_counts_always_add_up() {
    let jobs = vec![
        job("1", "ok", "{\"name\":\"a\"}"),
        job("2", "missing", "{\"name\":\"b\"}"),
        job("3", "ok", "{\"name\":\"c\"}"),
        job("4", "ok", "{\"name\":\"d\"}"),
    ];
    let mut cache = TemplateCache::new();
    let mut pipeline = BatchPipeline::new(jobs);
    run_render_phase(&mut pipeline, &mut cache, &[("ok", OK_TEMPLATE.as_bytes())]);
    let tasks = pipeline.start_uploads();
    run_upload_phase(&mut pipeline, tasks, |job_id| {
        if job_id == "3" {
            UploadOutcome::Failed("write failed".to_string())
        } else {
            UploadOutcome::Delivered
        }
    });
    let resp = pipeline.finalize();
    assert_eq!(resp.results.len(), 4);
    assert_eq!(resp.summary.total, resp.summary.success + resp.summary.failed);
    assert_eq!(resp.summary.total, resp.results.len());
    let successes = resp
        .results
        .iter()
        .filter(|r| r.status == JobStatus::Success)
        .count();
    assert_eq!(resp.summary.success, successes);
    assert_eq!(resp.summary.success, 2);
    assert_eq!(resp.summary.failed, 2);
}

#[test]
fn empty_batch_completes_with_empty_summary() {
    let mut cache = TemplateCache::new();
    let mut pipeline = BatchPipeline::new(Vec::new());
    let fetches = run_render_phase(&mut pipeline, &mut cache, &[]);
    assert_eq!(fetches, 0);
    let tasks = pipeline.start_uploads();
    assert!(tasks.is_empty());
    let resp = pipeline.finalize();
    assert!(resp.results.is_empty());
    assert_eq!(resp.summary.total, 0);
    assert_eq!(resp.summary.success, 0);
    assert_eq!(resp.summary.failed, 0);
}

#[test]
fn invalid_utf8_template_is_a_compile_error() {
    let jobs = vec![job("U", "binary", "{}")];
    let mut cache = TemplateCache::new();
    let mut pipeline = BatchPipeline::new(jobs);
    let invalid: &[u8] = &[0xff, 0xfe, 0x00, 0x80];
    let fetches = run_render_phase(&mut pipeline, &mut cache, &[("binary", invalid)]);
    assert_eq!(fetches, 1);
    let tasks = pipeline.start_uploads();
    assert!(tasks.is_empty());
    let resp = pipeline.finalize();
    assert_eq!(resp.summary.total, 1);
    assert_eq!(resp.summary.failed, 1);
    let u = result_for(&resp.results, "U");
    assert!(matches!(u.error, Some(RenderError::CompileError(_))));
}
