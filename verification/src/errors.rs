//! The per-job error taxonomy.
//!
//! Every error is local to one job: it is recorded in that job's result and
//! never aborts the rest of a batch.

use vstd::prelude::*;

verus! {

/// Why a single job failed.
///
/// Each variant carries a human-readable message. A failure of one kind on one
/// job never affects the processing of any other job in the same batch.
pub enum RenderError {
    /// The job's message could not be decoded at ingress.
    JobParseError(String),
    /// The template could not be fetched from the object store.
    FetchError(String),
    /// The fetched template content is malformed (not a valid source text).
    CompileError(String),
    /// The rendering engine failed to produce output for the job's data.
    RenderingError(String),
    /// The rendered output could not be written to the object store.
    UploadError(String),
    /// The concurrent upload task for the job crashed before reporting.
    TaskFailure(String),
}

impl RenderError {
    /// The name of this error's kind, as shown to callers.
    pub open spec fn kind_name(&self) -> Seq<char> {
        match self {
            RenderError::JobParseError(_) => "JobParseError"@,
            RenderError::FetchError(_) => "FetchError"@,
            RenderError::CompileError(_) => "CompileError"@,
            RenderError::RenderingError(_) => "RenderingError"@,
            RenderError::UploadError(_) => "UploadError"@,
            RenderError::TaskFailure(_) => "TaskFailure"@,
        }
    }

    /// The message this error carries.
    pub open spec fn message_spec(&self) -> Seq<char> {
        match self {
            RenderError::JobParseError(m) => m@,
            RenderError::FetchError(m) => m@,
            RenderError::CompileError(m) => m@,
            RenderError::RenderingError(m) => m@,
            RenderError::UploadError(m) => m@,
            RenderError::TaskFailure(m) => m@,
        }
    }

    /// The name of this error's kind.
    pub fn kind_str(&self) -> (r: &'static str)
        ensures
            r@ == self.kind_name(),
    {
        match self {
            RenderError::JobParseError(_) => "JobParseError",
            RenderError::FetchError(_) => "FetchError",
            RenderError::CompileError(_) => "CompileError",
            RenderError::RenderingError(_) => "RenderingError",
            RenderError::UploadError(_) => "UploadError",
            RenderError::TaskFailure(_) => "TaskFailure",
        }
    }

    /// The message this error carries.
    pub fn message(&self) -> (r: &String)
        ensures
            r@ == self.message_spec(),
    {
        match self {
            RenderError::JobParseError(m) => m,
            RenderError::FetchError(m) => m,
            RenderError::CompileError(m) => m,
            RenderError::RenderingError(m) => m,
            RenderError::UploadError(m) => m,
            RenderError::TaskFailure(m) => m,
        }
    }
}

} // verus!
