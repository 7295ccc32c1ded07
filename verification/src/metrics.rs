use vstd::prelude::*;
use crate::amplification::EngineType;
use crate::histogram::LatencyHistogram;
use crate::histogram::clamp_spec;
use crate::histogram::percentile_spec;
use crate::histogram::slot_of;

verus! {

/// Percentile marks reported for each operation class, in tenths of a
/// percent.
pub const P50_TENTHS: u64 = 500;

pub const P95_TENTHS: u64 = 950;

pub const P99_TENTHS: u64 = 990;

pub const P999_TENTHS: u64 = 999;

/// The latency percentiles a finished run reports, in microseconds, for
/// writes and reads at the 50th, 95th, 99th and 99.9th percentile.
#[derive(Clone, Copy, PartialEq, Eq, Structural, Debug)]
pub struct LatencyStats {
    pub write_p50: u64,
    pub write_p95: u64,
    pub write_p99: u64,
    pub write_p999: u64,
    pub read_p50: u64,
    pub read_p95: u64,
    pub read_p99: u64,
    pub read_p999: u64,
}

/// One engine's completed, immutable benchmark outcome: identity,
/// throughput in whole operations per second, operation count, wall-clock
/// duration in microseconds, latency percentiles (plus the tail scan
/// percentile), and amplification ratios in hundredths.
#[derive(Clone, Copy, PartialEq, Eq, Structural, Debug)]
pub struct BenchmarkResult {
    pub engine_type: EngineType,
    pub throughput: u64,
    pub operations: u64,
    pub duration_micros: u64,
    pub latencies: LatencyStats,
    pub scan_p99: u64,
    pub write_amplification: u64,
    pub space_amplification: u64,
}

/// The percentile marks a collector reports, as a function of its histogram
/// contents.
pub open spec fn latency_stats_spec(c: MetricsCollector) -> LatencyStats {
    LatencyStats {
        write_p50: percentile_spec(c.write_counts(), c.write_total(), P50_TENTHS as nat) as u64,
        write_p95: percentile_spec(c.write_counts(), c.write_total(), P95_TENTHS as nat) as u64,
        write_p99: percentile_spec(c.write_counts(), c.write_total(), P99_TENTHS as nat) as u64,
        write_p999: percentile_spec(c.write_counts(), c.write_total(), P999_TENTHS as nat) as u64,
        read_p50: percentile_spec(c.read_counts(), c.read_total(), P50_TENTHS as nat) as u64,
        read_p95: percentile_spec(c.read_counts(), c.read_total(), P95_TENTHS as nat) as u64,
        read_p99: percentile_spec(c.read_counts(), c.read_total(), P99_TENTHS as nat) as u64,
        read_p999: percentile_spec(c.read_counts(), c.read_total(), P999_TENTHS as nat) as u64,
    }
}

/// The tail scan percentile a collector reports, as a function of its scan
/// histogram contents.
pub open spec fn scan_p99_spec(c: MetricsCollector) -> nat {
    percentile_spec(c.scan_counts(), c.scan_total(), P99_TENTHS as nat)
}

/// Per-run latency instrumentation: one independent histogram per operation
/// class, written during the run and queried once the run has completed.
pub struct MetricsCollector {
    write_latencies: LatencyHistogram,
    read_latencies: LatencyHistogram,
    scan_latencies: LatencyHistogram,
}

impl MetricsCollector {
    /// The slot counts of the write histogram.
    pub closed spec fn write_counts(self) -> Seq<u64> {
        self.write_latencies.counts_seq()
    }

    /// The slot counts of the read histogram.
    pub closed spec fn read_counts(self) -> Seq<u64> {
        self.read_latencies.counts_seq()
    }

    /// The slot counts of the scan histogram.
    pub closed spec fn scan_counts(self) -> Seq<u64> {
        self.scan_latencies.counts_seq()
    }

    /// Samples recorded in the write histogram.
    pub closed spec fn write_total(self) -> nat {
        self.write_latencies.total_spec()
    }

    /// Samples recorded in the read histogram.
    pub closed spec fn read_total(self) -> nat {
        self.read_latencies.total_spec()
    }

    /// Samples recorded in the scan histogram.
    pub closed spec fn scan_total(self) -> nat {
        self.scan_latencies.total_spec()
    }

    /// All three histograms are well formed.
    pub closed spec fn wf(self) -> bool {
        &&& self.write_latencies.wf()
        &&& self.read_latencies.wf()
        &&& self.scan_latencies.wf()
    }

    /// A fresh collector with three empty histograms.
    pub fn new() -> (r: MetricsCollector)
        ensures
            r.wf(),
            r.write_total() == 0,
            r.read_total() == 0,
            r.scan_total() == 0,
    {
        MetricsCollector {
            write_latencies: LatencyHistogram::new(),
            read_latencies: LatencyHistogram::new(),
            scan_latencies: LatencyHistogram::new(),
        }
    }

    /// Records one write latency, in microseconds; the other classes are
    /// untouched.
    pub fn record_write_latency(&mut self, micros: u64)
        requires
            old(self).wf(),
            old(self).write_total() < u64::MAX,
        ensures
            final(self).wf(),
            final(self).write_total() == old(self).write_total() + 1,
            final(self).write_counts() == old(self).write_counts().update(
                slot_of(clamp_spec(micros) as nat) as int,
                (old(self).write_counts()[slot_of(clamp_spec(micros) as nat) as int] + 1) as u64,
            ),
            final(self).read_counts() == old(self).read_counts(),
            final(self).scan_counts() == old(self).scan_counts(),
            final(self).read_total() == old(self).read_total(),
            final(self).scan_total() == old(self).scan_total(),
    {
        self.write_latencies.record(micros);
    }

    /// Records one read latency, in microseconds; the other classes are
    /// untouched.
    pub fn record_read_latency(&mut self, micros: u64)
        requires
            old(self).wf(),
            old(self).read_total() < u64::MAX,
        ensures
            final(self).wf(),
            final(self).read_total() == old(self).read_total() + 1,
            final(self).read_counts() == old(self).read_counts().update(
                slot_of(clamp_spec(micros) as nat) as int,
                (old(self).read_counts()[slot_of(clamp_spec(micros) as nat) as int] + 1) as u64,
            ),
            final(self).write_counts() == old(self).write_counts(),
            final(self).scan_counts() == old(self).scan_counts(),
            final(self).write_total() == old(self).write_total(),
            final(self).scan_total() == old(self).scan_total(),
    {
        self.read_latencies.record(micros);
    }

    /// Records one range-scan latency, in microseconds; the other classes
    /// are untouched.
    pub fn record_scan_latency(&mut self, micros: u64)
        requires
            old(self).wf(),
            old(self).scan_total() < u64::MAX,
        ensures
            final(self).wf(),
            final(self).scan_total() == old(self).scan_total() + 1,
            final(self).scan_counts() == old(self).scan_counts().update(
                slot_of(clamp_spec(micros) as nat) as int,
                (old(self).scan_counts()[slot_of(clamp_spec(micros) as nat) as int] + 1) as u64,
            ),
            final(self).write_counts() == old(self).write_counts(),
            final(self).read_counts() == old(self).read_counts(),
            final(self).write_total() == old(self).write_total(),
            final(self).read_total() == old(self).read_total(),
    {
        self.scan_latencies.record(micros);
    }

    /// Reads the configured percentile marks out of the write and read
    /// histograms, once all recording for the phase is over.
    pub fn get_latencies(&self) -> (r: LatencyStats)
        requires
            self.wf(),
        ensures
            r.write_p50 == percentile_spec(self.write_counts(), self.write_total(), P50_TENTHS as nat),
            r.write_p95 == percentile_spec(self.write_counts(), self.write_total(), P95_TENTHS as nat),
            r.write_p99 == percentile_spec(self.write_counts(), self.write_total(), P99_TENTHS as nat),
            r.write_p999 == percentile_spec(
                self.write_counts(),
                self.write_total(),
                P999_TENTHS as nat,
            ),
            r.read_p50 == percentile_spec(self.read_counts(), self.read_total(), P50_TENTHS as nat),
            r.read_p95 == percentile_spec(self.read_counts(), self.read_total(), P95_TENTHS as nat),
            r.read_p99 == percentile_spec(self.read_counts(), self.read_total(), P99_TENTHS as nat),
            r.read_p999 == percentile_spec(self.read_counts(), self.read_total(), P999_TENTHS as nat),
            r == latency_stats_spec(*self),
    {
        LatencyStats {
            write_p50: self.write_latencies.percentile(P50_TENTHS),
            write_p95: self.write_latencies.percentile(P95_TENTHS),
            write_p99: self.write_latencies.percentile(P99_TENTHS),
            write_p999: self.write_latencies.percentile(P999_TENTHS),
            read_p50: self.read_latencies.percentile(P50_TENTHS),
            read_p95: self.read_latencies.percentile(P95_TENTHS),
            read_p99: self.read_latencies.percentile(P99_TENTHS),
            read_p999: self.read_latencies.percentile(P999_TENTHS),
        }
    }

    /// The 99th-percentile scan latency, carried into the result and its
    /// comparison row.
    pub fn scan_p99(&self) -> (r: u64)
        requires
            self.wf(),
        ensures
            r == scan_p99_spec(*self),
    {
        self.scan_latencies.percentile(P99_TENTHS)
    }
}

} // verus!
