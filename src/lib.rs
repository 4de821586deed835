//! Incremental export orchestration: a write-once computation graph scoped
//! to one compilation round, the change gate that decides whether a task's
//! output is regenerated, the compile gate that aggregates trigger policies,
//! and the pipeline that routes a task to its export strategy.
pub mod task;
pub mod timing;
pub mod graph;
pub mod compile;
pub mod export;
pub mod claim;
