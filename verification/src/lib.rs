//! Batch document rendering with per-template caching.
//!
//! The crate turns an ordered batch of render jobs into one result per job.
//! Jobs are rendered sequentially against a process-wide template cache (or a
//! cache of reusable render contexts, one per template), and the rendered
//! outputs are then uploaded concurrently by the caller; the pipeline records
//! every outcome and aggregates them into a response with summary counts.

pub mod aggregate;
pub mod context_cache;
pub mod engine;
pub mod errors;
pub mod job;
pub mod pipeline;
pub mod template_cache;
