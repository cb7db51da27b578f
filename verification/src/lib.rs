//! Execution core of a block-processing benchmark: run options and their
//! validation, the staged generate/execute/commit pipeline, and the client
//! side of sharded remote block execution.

pub mod accounts;
pub mod client;
pub mod codec;
pub mod concurrency;
pub mod frame;
pub mod options;
pub mod pipeline;
pub mod pruner;
pub mod retry;
