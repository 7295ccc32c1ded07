use vstd::prelude::*;
use crate::amplification::EngineStatistics;
use crate::amplification::EngineType;
use crate::amplification::amplification_for;
use crate::amplification::amplification_spec;
use crate::amplification::lemma_amplification_for_bounds;
use crate::config::WorkloadConfig;
use crate::config::total_keys_spec;
use crate::engine::EngineError;
use crate::engine::EngineFailure;
use crate::engine::OpClass;
use crate::engine::StorageEngine;
use crate::keygen::KeyValueGenerator;
use crate::metrics::BenchmarkResult;
use crate::metrics::LatencyStats;
use crate::metrics::MetricsCollector;
use crate::metrics::latency_stats_spec;
use crate::metrics::scan_p99_spec;

verus! {

/// The fixed seed every run starts from, in both phases, so key
/// distributions repeat across engines and across runs.
pub const DEFAULT_SEED: u64 = 42;

/// How many operations pass between periodic durability barriers in a
/// timed run.
pub const FLUSH_INTERVAL: u64 = 10_000;

/// The fraction of the key space written during population: one tenth.
pub const POPULATE_DIVISOR: u64 = 10;

/// The phases a run passes through, in order: waiting, seeding the engine
/// with data, the timed loop, the final durability barrier, and result
/// materialization.
#[derive(Clone, Copy, PartialEq, Eq, Structural, Debug)]
pub enum Phase {
    Idle,
    Populating,
    Running,
    Draining,
    Completed,
}

impl Phase {
    /// The successor of each phase; a completed run stays completed.
    pub open spec fn next_spec(self) -> Phase {
        match self {
            Phase::Idle => Phase::Populating,
            Phase::Populating => Phase::Running,
            Phase::Running => Phase::Draining,
            Phase::Draining => Phase::Completed,
            Phase::Completed => Phase::Completed,
        }
    }

    /// Advances to the next phase.
    pub fn next(self) -> (r: Phase)
        ensures
            r == self.next_spec(),
    {
        match self {
            Phase::Idle => Phase::Populating,
            Phase::Populating => Phase::Running,
            Phase::Running => Phase::Draining,
            Phase::Draining => Phase::Completed,
            Phase::Completed => Phase::Completed,
        }
    }
}

/// The operation classes the timed loop chooses among.
#[derive(Clone, Copy, PartialEq, Eq, Structural, Debug)]
pub enum OpKind {
    Write,
    Scan,
    Read,
}

/// Which operation a uniform draw in `[0, 100)` selects: the buckets are
/// checked in the fixed order write, scan, read, and a draw equal to a
/// boundary falls into the next bucket.
pub open spec fn select_op_spec(draw: u64, write_pct: u64, scan_pct: u64) -> OpKind {
    if draw < write_pct {
        OpKind::Write
    } else if draw < write_pct + scan_pct {
        OpKind::Scan
    } else {
        OpKind::Read
    }
}

/// Executable operation selection matching `select_op_spec`.
pub fn select_op(draw: u64, write_pct: u64, scan_pct: u64) -> (r: OpKind)
    requires
        write_pct <= 100,
        scan_pct <= 100,
    ensures
        r == select_op_spec(draw, write_pct, scan_pct),
{
    if draw < write_pct {
        OpKind::Write
    } else if draw < write_pct + scan_pct {
        OpKind::Scan
    } else {
        OpKind::Read
    }
}

/// Whole operations per second: the operation count over the elapsed time,
/// floored, saturating at `u64::MAX`; a zero-length run counts as one
/// microsecond so the figure stays defined.
pub open spec fn throughput_spec(operations: nat, elapsed_micros: nat) -> nat {
    let e: nat = if elapsed_micros == 0 {
        1
    } else {
        elapsed_micros
    };
    let t = operations * 1_000_000 / e;
    if t > u64::MAX {
        u64::MAX as nat
    } else {
        t
    }
}

/// Executable throughput computation matching `throughput_spec`.
pub fn compute_throughput(operations: u64, elapsed_micros: u64) -> (r: u64)
    ensures
        r == throughput_spec(operations as nat, elapsed_micros as nat),
{
    let e: u64 = if elapsed_micros == 0 {
        1
    } else {
        elapsed_micros
    };
    proof {
        assert(operations * 1_000_000 <= u64::MAX * 1_000_000) by (nonlinear_arith)
            requires
                operations <= u64::MAX,
        ;
    }
    let t: u128 = operations as u128 * 1_000_000 / e as u128;
    if t > u64::MAX as u128 {
        u64::MAX
    } else {
        t as u64
    }
}

/// Builds the immutable outcome of a completed run from the measured parts:
/// identity, counts, wall-clock time, the recorded percentiles, and the
/// amplification the engine's family derives from its byte counters.
pub fn materialize_result(
    engine_type: EngineType,
    operations: u64,
    elapsed_micros: u64,
    stats: &EngineStatistics,
    latencies: LatencyStats,
    scan_p99: u64,
) -> (r: BenchmarkResult)
    ensures
        r.engine_type == engine_type,
        r.operations == operations,
        r.duration_micros == elapsed_micros,
        r.latencies == latencies,
        r.scan_p99 == scan_p99,
        r.throughput == throughput_spec(operations as nat, elapsed_micros as nat),
        r.write_amplification == amplification_spec(engine_type.family_spec(), *stats).waf_centi,
        r.space_amplification == amplification_spec(engine_type.family_spec(), *stats).saf_centi,
        r.write_amplification >= 100,
{
    let family = engine_type.family();
    let amp = amplification_for(family, stats);
    proof {
        lemma_amplification_for_bounds(engine_type.family_spec(), *stats);
    }
    BenchmarkResult {
        engine_type,
        throughput: compute_throughput(operations, elapsed_micros),
        operations,
        duration_micros: elapsed_micros,
        latencies,
        scan_p99,
        write_amplification: amp.waf_centi,
        space_amplification: amp.saf_centi,
    }
}

/// Relies on `std::time::Instant`: an opaque monotonic timestamp.
#[verifier::external_type_specification]
#[verifier::external_body]
pub struct ExInstant(std::time::Instant);

/// Relies on `std::time::Instant::now`: a reading of the monotonic clock.
/// Nothing is promised of its value.
#[verifier::external_body]
fn instant_now() -> (r: std::time::Instant) {
    std::time::Instant::now()
}

/// Relies on `std::time::Instant::elapsed`: the time since `start`.
/// Nothing is promised of its value.
#[verifier::external_body]
fn instant_elapsed(start: &std::time::Instant) -> (r: std::time::Duration) {
    start.elapsed()
}

/// Relies on `std::time::Duration::as_micros`: the duration in whole
/// microseconds.
#[verifier::external_body]
fn duration_as_micros(d: &std::time::Duration) -> (r: u128) {
    d.as_micros()
}

/// Microseconds since `start`, saturated to the representable range.
fn elapsed_micros_since(start: &std::time::Instant) -> u64 {
    let d = instant_elapsed(start);
    let m = duration_as_micros(&d);
    if m > u64::MAX as u128 {
        u64::MAX
    } else {
        m as u64
    }
}

/// Relies on rand's `StdRng`: an opaque seeded pseudo-random generator.
#[verifier::external_type_specification]
#[verifier::external_body]
pub struct ExStdRng(rand::rngs::StdRng);

/// Relies on rand's `SeedableRng::seed_from_u64` for `StdRng`:
/// deterministic construction of a generator from a 64-bit seed.
#[verifier::external_body]
fn rng_from_seed(seed: u64) -> (r: rand::rngs::StdRng) {
    <rand::rngs::StdRng as rand::SeedableRng>::seed_from_u64(seed)
}

/// Relies on rand's `Rng::gen_range` over `0..bound`: it panics only on an
/// empty range, and returns a value inside the range. Which value comes
/// back is promised nowhere.
#[verifier::external_body]
fn rng_below(rng: &mut rand::rngs::StdRng, bound: u64) -> (r: u64)
    requires
        bound >= 1,
    ensures
        r < bound,
{
    rand::Rng::gen_range(rng, 0..bound)
}

/// A configured workload run: drives population and the timed loop against
/// one engine, timing every operation and recording it in the collector.
pub struct Workload {
    /// The validated configuration the run follows.
    pub config: WorkloadConfig,
    /// The seed both phases are derived from.
    pub seed: u64,
}

impl Workload {
    /// A workload over a validated configuration, with the fixed default
    /// seed.
    pub fn new(config: WorkloadConfig) -> (r: Workload)
        ensures
            r.config == config,
            r.seed == DEFAULT_SEED,
    {
        Workload { config, seed: DEFAULT_SEED }
    }

    /// Runs the full workload against one engine: populates a tenth of the
    /// key space, then issues operations in the configured mix until the
    /// configured duration elapses, with a durability barrier every
    /// `FLUSH_INTERVAL` operations and a final one before the result is
    /// materialized. The first engine failure aborts the run with the
    /// operation and key that caused it. On success, the result's operation
    /// count is exactly the number of samples recorded, its throughput is
    /// the operation count over the elapsed time, and its latency figures
    /// are the recorder's percentiles.
    pub fn run<E: StorageEngine>(&self, engine: &mut E, collector: &mut MetricsCollector) -> (r:
        Result<BenchmarkResult, EngineFailure>)
        requires
            self.config.well_formed(),
            total_keys_spec(
                self.config.dataset_size@,
                self.config.key_size as nat,
                self.config.value_size as nat,
            ) >= 1,
            old(collector).wf(),
            old(collector).write_total() == 0,
            old(collector).read_total() == 0,
            old(collector).scan_total() == 0,
        ensures
            final(collector).wf(),
            r matches Ok(res) ==> {
                &&& res.operations == final(collector).write_total() + final(collector).read_total()
                    + final(collector).scan_total()
                &&& res.throughput == throughput_spec(
                    res.operations as nat,
                    res.duration_micros as nat,
                )
                &&& res.latencies == latency_stats_spec(*final(collector))
                &&& res.scan_p99 == scan_p99_spec(*final(collector))
                &&& res.write_amplification >= 100
            },
    {
        let mut phase = Phase::Idle;
        let total_keys = self.config.total_keys();
        let generator = KeyValueGenerator::new(
            self.seed,
            self.config.key_size,
            self.config.value_size,
        );

        phase = phase.next();
        assert(phase is Populating);
        let populate_count: u64 = total_keys / POPULATE_DIVISOR;
        let mut i: u64 = 0;
        while i < populate_count
            invariant
                collector.wf(),
                collector.write_total() == old(collector).write_total(),
                collector.read_total() == old(collector).read_total(),
                collector.scan_total() == old(collector).scan_total(),
                generator.key_size == self.config.key_size,
                generator.value_size == self.config.value_size,
            decreases populate_count - i,
        {
            if i % FLUSH_INTERVAL == 0 {
                match engine.flush() {
                    Ok(()) => (),
                    Err(e) => {
                        return Err(
                            EngineFailure {
                                operation: OpClass::Flush,
                                key_index: None,
                                message: e.message,
                            },
                        );
                    },
                }
            }
            let key = generator.key_at(i);
            let value = generator.value_at(i);
            match engine.put(key.as_slice(), value.as_slice()) {
                Ok(()) => (),
                Err(e) => {
                    return Err(
                        EngineFailure {
                            operation: OpClass::Write,
                            key_index: Some(i),
                            message: e.message,
                        },
                    );
                },
            }
            i = i + 1;
        }
        match engine.flush() {
            Ok(()) => (),
            Err(e) => {
                return Err(
                    EngineFailure { operation: OpClass::Flush, key_index: None, message: e.message },
                );
            },
        }

        phase = phase.next();
        assert(phase is Running);
        let mut rng = rng_from_seed(self.seed);
        let start = instant_now();
        let duration_micros: u64 = if self.config.duration > u64::MAX / 1_000_000 {
            u64::MAX
        } else {
            self.config.duration * 1_000_000
        };
        let write_pct = self.config.writes as u64;
        let scan_pct = self.config.scans as u64;
        let mut operations: u64 = 0;
        while operations < u64::MAX
            invariant
                collector.wf(),
                collector.write_total() + collector.read_total() + collector.scan_total()
                    == operations,
                total_keys >= 1,
                write_pct <= 100,
                scan_pct <= 100,
                generator.key_size == self.config.key_size,
                generator.value_size == self.config.value_size,
            decreases u64::MAX - operations,
        {
            let elapsed = elapsed_micros_since(&start);
            if elapsed >= duration_micros {
                break ;
            }
            let draw = rng_below(&mut rng, 100);
            let op = select_op(draw, write_pct, scan_pct);
            let index = rng_below(&mut rng, total_keys);
            let op_start = instant_now();
            match op {
                OpKind::Write => {
                    let key = generator.key_at(index);
                    let value = generator.value_at(index);
                    match engine.put(key.as_slice(), value.as_slice()) {
                        Ok(()) => (),
                        Err(e) => {
                            return Err(
                                EngineFailure {
                                    operation: OpClass::Write,
                                    key_index: Some(index),
                                    message: e.message,
                                },
                            );
                        },
                    }
                    collector.record_write_latency(elapsed_micros_since(&op_start));
                },
                OpKind::Scan => {
                    let key = generator.key_at(index);
                    match engine.range_scan(key.as_slice(), self.config.scan_length) {
                        Ok(_) => (),
                        Err(e) => {
                            return Err(
                                EngineFailure {
                                    operation: OpClass::Scan,
                                    key_index: Some(index),
                                    message: e.message,
                                },
                            );
                        },
                    }
                    collector.record_scan_latency(elapsed_micros_since(&op_start));
                },
                OpKind::Read => {
                    let key = generator.key_at(index);
                    match engine.get(key.as_slice()) {
                        Ok(_) => (),
                        Err(e) => {
                            return Err(
                                EngineFailure {
                                    operation: OpClass::Read,
                                    key_index: Some(index),
                                    message: e.message,
                                },
                            );
                        },
                    }
                    collector.record_read_latency(elapsed_micros_since(&op_start));
                },
            }
            operations = operations + 1;
            if operations % FLUSH_INTERVAL == 0 {
                match engine.flush() {
                    Ok(()) => (),
                    Err(e) => {
                        return Err(
                            EngineFailure {
                                operation: OpClass::Flush,
                                key_index: None,
                                message: e.message,
                            },
                        );
                    },
                }
            }
        }

        phase = phase.next();
        assert(phase is Draining);
        match engine.flush() {
            Ok(()) => (),
            Err(e) => {
                return Err(
                    EngineFailure { operation: OpClass::Flush, key_index: None, message: e.message },
                );
            },
        }

        phase = phase.next();
        assert(phase is Completed);
        let elapsed = elapsed_micros_since(&start);
        let latencies = collector.get_latencies();
        let scan_p99 = collector.scan_p99();
        let stats = engine.get_statistics();
        Ok(materialize_result(engine.engine_type(), operations, elapsed, &stats, latencies, scan_p99))
    }
}

/// Keys written during a quick benchmark's population phase.
pub const BENCH_POPULATE_KEYS: u64 = 5_000;

/// Key space point writes draw from during a quick benchmark.
pub const BENCH_WRITE_KEYS: u64 = 10_000;

/// Key space reads and scans draw from during a quick benchmark: the
/// populated prefix, so lookups mostly hit existing data.
pub const BENCH_READ_KEYS: u64 = 5_000;

/// Durability-barrier cadence of a quick benchmark.
pub const BENCH_FLUSH_INTERVAL: u64 = 5_000;

/// Key length of a quick benchmark: the full formatted key, untruncated.
pub const BENCH_KEY_SIZE: usize = 20;

/// A fixed-count benchmark: instead of running for a wall-clock duration it
/// issues a preset number of operations, which makes runs comparable by
/// work done rather than by time.
pub struct Benchmark {
    /// Percentage of operations that are writes.
    pub write_ratio: u32,
    /// Percentage of operations that are range scans.
    pub scan_ratio: u32,
    /// Value size in bytes.
    pub value_size: usize,
    /// How many operations the timed loop issues.
    pub num_operations: u64,
    /// Entries fetched per range scan.
    pub scan_length: usize,
}

impl Benchmark {
    /// The stock quick benchmark: a write-heavy mix of 70% writes, 10%
    /// scans and 20% reads over 1 KiB values, fifty thousand operations.
    pub fn new() -> (r: Benchmark)
        ensures
            r.write_ratio == 70,
            r.scan_ratio == 10,
            r.value_size == 1024,
            r.num_operations == 50_000,
            r.scan_length == 100,
    {
        Benchmark {
            write_ratio: 70,
            scan_ratio: 10,
            value_size: 1024,
            num_operations: 50_000,
            scan_length: 100,
        }
    }

    /// Populates the engine, then issues exactly `num_operations` operations
    /// in the configured mix, timing each one and recording it in the
    /// collector; the first engine failure aborts the run. On success the
    /// result covers exactly the configured operation count — which is also
    /// the number of samples the collector then holds — with throughput
    /// derived from the measured time and every percentile field read from
    /// the collector's histogram of its own class.
    pub fn run<E: StorageEngine>(&self, engine: &mut E, collector: &mut MetricsCollector) -> (r:
        Result<BenchmarkResult, EngineFailure>)
        requires
            self.write_ratio <= 100,
            self.scan_ratio <= 100,
            self.write_ratio + self.scan_ratio <= 100,
            old(collector).wf(),
            old(collector).write_total() == 0,
            old(collector).read_total() == 0,
            old(collector).scan_total() == 0,
        ensures
            final(collector).wf(),
            r matches Ok(res) ==> {
                &&& res.operations == self.num_operations
                &&& final(collector).write_total() + final(collector).read_total()
                    + final(collector).scan_total() == self.num_operations
                &&& res.throughput == throughput_spec(
                    res.operations as nat,
                    res.duration_micros as nat,
                )
                &&& res.latencies == latency_stats_spec(*final(collector))
                &&& res.scan_p99 == scan_p99_spec(*final(collector))
                &&& res.write_amplification >= 100
            },
    {
        let generator = KeyValueGenerator::new(DEFAULT_SEED, BENCH_KEY_SIZE, self.value_size);
        let mut rng = rng_from_seed(DEFAULT_SEED);

        let mut i: u64 = 0;
        while i < BENCH_POPULATE_KEYS
            invariant
                collector.wf(),
                collector.write_total() == old(collector).write_total(),
                collector.read_total() == old(collector).read_total(),
                collector.scan_total() == old(collector).scan_total(),
                generator.value_size == self.value_size,
            decreases BENCH_POPULATE_KEYS - i,
        {
            let key = generator.key_at(i);
            let value = generator.constant_value(0);
            match engine.put(key.as_slice(), value.as_slice()) {
                Ok(()) => (),
                Err(e) => {
                    return Err(
                        EngineFailure {
                            operation: OpClass::Write,
                            key_index: Some(i),
                            message: e.message,
                        },
                    );
                },
            }
            i = i + 1;
        }
        match engine.flush() {
            Ok(()) => (),
            Err(e) => {
                return Err(
                    EngineFailure { operation: OpClass::Flush, key_index: None, message: e.message },
                );
            },
        }

        let start = instant_now();
        let write_pct = self.write_ratio as u64;
        let scan_pct = self.scan_ratio as u64;
        let mut operations: u64 = 0;
        while operations < self.num_operations
            invariant
                collector.wf(),
                collector.write_total() + collector.read_total() + collector.scan_total()
                    == operations,
                operations <= self.num_operations,
                write_pct <= 100,
                scan_pct <= 100,
                generator.value_size == self.value_size,
            decreases self.num_operations - operations,
        {
            let draw = rng_below(&mut rng, 100);
            let op = select_op(draw, write_pct, scan_pct);
            let op_start = instant_now();
            match op {
                OpKind::Write => {
                    let index = rng_below(&mut rng, BENCH_WRITE_KEYS);
                    let key = generator.key_at(index);
                    let fill = rng_below(&mut rng, 256) as u8;
                    let value = generator.constant_value(fill);
                    match engine.put(key.as_slice(), value.as_slice()) {
                        Ok(()) => (),
                        Err(e) => {
                            return Err(
                                EngineFailure {
                                    operation: OpClass::Write,
                                    key_index: Some(index),
                                    message: e.message,
                                },
                            );
                        },
                    }
                    collector.record_write_latency(elapsed_micros_since(&op_start));
                },
                OpKind::Scan => {
                    let index = rng_below(&mut rng, BENCH_READ_KEYS);
                    let key = generator.key_at(index);
                    match engine.range_scan(key.as_slice(), self.scan_length) {
                        Ok(_) => (),
                        Err(e) => {
                            return Err(
                                EngineFailure {
                                    operation: OpClass::Scan,
                                    key_index: Some(index),
                                    message: e.message,
                                },
                            );
                        },
                    }
                    collector.record_scan_latency(elapsed_micros_since(&op_start));
                },
                OpKind::Read => {
                    let index = rng_below(&mut rng, BENCH_READ_KEYS);
                    let key = generator.key_at(index);
                    match engine.get(key.as_slice()) {
                        Ok(_) => (),
                        Err(e) => {
                            return Err(
                                EngineFailure {
                                    operation: OpClass::Read,
                                    key_index: Some(index),
                                    message: e.message,
                                },
                            );
                        },
                    }
                    collector.record_read_latency(elapsed_micros_since(&op_start));
                },
            }
            operations = operations + 1;
            if operations % BENCH_FLUSH_INTERVAL == 0 {
                match engine.flush() {
                    Ok(()) => (),
                    Err(e) => {
                        return Err(
                            EngineFailure {
                                operation: OpClass::Flush,
                                key_index: None,
                                message: e.message,
                            },
                        );
                    },
                }
            }
        }
        match engine.flush() {
            Ok(()) => (),
            Err(e) => {
                return Err(
                    EngineFailure { operation: OpClass::Flush, key_index: None, message: e.message },
                );
            },
        }

        let elapsed = elapsed_micros_since(&start);
        let latencies = collector.get_latencies();
        let scan_p99 = collector.scan_p99();
        let stats = engine.get_statistics();
        Ok(materialize_result(engine.engine_type(), operations, elapsed, &stats, latencies, scan_p99))
    }
}

} // verus!
