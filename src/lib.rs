//! A real-time object-detection video pipeline: batches of decoded frames go
//! through a detector, are annotated, stamped at a constant frame rate and
//! encoded. This library holds the pipeline's decisions: the run
//! configuration, class filtering, batching, timestamps, the orchestrator's
//! state machine, stage statistics and error policy.
pub mod batching;
pub mod config;
pub mod errors;
pub mod filter;
pub mod geometry;
pub mod ingest;
pub mod pipeline;
pub mod queue;
pub mod stats;
pub mod timing;
