//! Stats pipeline, bounded worker pool and run orchestration for an
//! object-storage load generator.

pub mod text;
pub mod ops;
pub mod aggregator;
pub mod collector;
pub mod pool;
pub mod config;
pub mod poller;
pub mod runner;
pub mod identity;
pub mod results;
