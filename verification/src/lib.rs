//! Verified core of a storage-engine benchmarking harness.
//!
//! The library covers workload configuration, deterministic key/value
//! synthesis, latency histograms, amplification estimation, workload
//! scheduling over an abstract storage engine, result artifacts, and
//! comparative reporting. Engine bindings, file I/O and console output
//! live outside the library.

mod amplification;
mod artifact;
mod config;
mod histogram;
mod engine;
mod keygen;
mod metrics;
mod report;
mod scheduler;

pub use amplification::Amplification;
pub use amplification::EngineFamily;
pub use amplification::amplification_for;
pub use amplification::EngineStatistics;
pub use amplification::EngineType;
pub use artifact::parse_results;
pub use artifact::render_results;
pub use config::ConfigError;
pub use config::WorkloadConfig;
pub use engine::EngineError;
pub use engine::EngineFailure;
pub use engine::OpClass;
pub use engine::StorageEngine;
pub use histogram::LatencyHistogram;
pub use keygen::KeyValueGenerator;
pub use metrics::BenchmarkResult;
pub use metrics::LatencyStats;
pub use metrics::MetricsCollector;
pub use report::ComparisonReport;
pub use report::compare_results;
pub use report::render_csv;
pub use report::render_markdown;
pub use report::MetricKind;
pub use report::MetricRow;
pub use scheduler::Benchmark;
pub use scheduler::OpKind;
pub use scheduler::Phase;
pub use scheduler::Workload;
pub use scheduler::compute_throughput;
pub use scheduler::materialize_result;
pub use scheduler::select_op;
