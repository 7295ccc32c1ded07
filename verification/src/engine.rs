use vstd::prelude::*;
use crate::amplification::EngineStatistics;
use crate::amplification::EngineType;

verus! {

/// The operation classes a run issues against an engine.
#[derive(Clone, Copy, PartialEq, Eq, Structural, Debug)]
pub enum OpClass {
    Write,
    Read,
    Scan,
    Flush,
}

/// A failure reported by a storage backend. Backends wrap their native
/// error text; the scheduler adds which operation and key triggered it.
#[derive(Clone, Debug)]
pub struct EngineError {
    pub message: String,
}

/// An aborted run: the failing operation class, the key index it touched
/// when one was involved, and the backend's own account. A run never
/// continues past the first failure, so a result is only ever produced by
/// an uninterrupted run.
#[derive(Clone, Debug)]
pub struct EngineFailure {
    pub operation: OpClass,
    pub key_index: Option<u64>,
    pub message: String,
}

/// The capability contract a storage backend implements for the benchmark
/// core: point writes and reads, ordered range scans, a blocking durability
/// barrier, and identity plus cumulative byte counters. The core depends
/// only on this interface and treats every outcome as possible.
pub trait StorageEngine {
    /// Stores `value` under `key`.
    fn put(&mut self, key: &[u8], value: &[u8]) -> Result<(), EngineError>;

    /// Fetches the value stored under `key`, if any.
    fn get(&mut self, key: &[u8]) -> Result<Option<Vec<u8>>, EngineError>;

    /// Returns at most `limit` entries at or after `start`, in key order.
    fn range_scan(&mut self, start: &[u8], limit: usize) -> Result<
        Vec<(Vec<u8>, Vec<u8>)>,
        EngineError,
    >;

    /// Blocks until all prior writes are durable.
    fn flush(&mut self) -> Result<(), EngineError>;

    /// Which backend this is.
    fn engine_type(&self) -> EngineType;

    /// Cumulative byte counters since the engine was opened.
    fn get_statistics(&self) -> EngineStatistics;
}

} // verus!
