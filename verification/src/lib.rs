//! A verified checkpoint-commit pipeline.
//!
//! The library takes a stream of fully indexed checkpoint records, groups
//! them into commit batches, writes each batch to a category-partitioned
//! store under a two-phase protocol (bulk categories first, the checkpoint
//! metadata marker strictly afterwards), and publishes a monotonically
//! advancing "last committed checkpoint" watermark.

pub mod adapter;
pub mod batch;
pub mod checkpoint;
pub mod committer;
pub mod metrics;
pub mod queue;
pub mod store;
pub mod table;
pub mod watermark;
