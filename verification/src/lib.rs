//! Load generation against a distributed ledger: the worker life cycle, the
//! write pipeline and the throughput report, with verified contracts.

pub mod counters;
pub mod reply;
pub mod pipeline;
pub mod replay;
pub mod seed;
pub mod worker;
pub mod threaded;
pub mod label;
pub mod config;
pub mod report;
pub mod pool;
