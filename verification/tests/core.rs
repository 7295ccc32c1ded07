use db_bench::Amplification;
use db_bench::EngineFamily;
use db_bench::EngineStatistics;
use db_bench::EngineType;
use db_bench::KeyValueGenerator;
use db_bench::LatencyHistogram;
use db_bench::MetricsCollector;
use db_bench::WorkloadConfig;

fn config(writes: u32, reads: u32, scans: u32, dataset: &str) -> WorkloadConfig {
    WorkloadConfig {
        writes,
        reads,
        scans,
        key_size: 16,
        value_size: 1024,
        dataset_size: dataset.as_bytes().to_vec(),
        duration: 1,
        scan_length: 100,
    }
}

#[test]
fn valid_ratios_are_accepted() {
    assert!(config(80, 20, 0, "1MB").validate().is_ok());
    assert!(config(0, 100, 0, "1MB").validate().is_ok());
    assert!(config(30, 60, 10, "1MB").validate().is_ok());
}

#[test]
fn invalid_ratios_are_rejected() {
    assert_eq!(
        config(80, 30, 0, "1MB").validate(),
        Err(db_bench::ConfigError::RatioSumInvalid)
    );
    assert!(config(10, 10, 10, "1MB").validate().is_err());
    assert!(config(100, 100, 100, "1MB").validate().is_err());
}

#[test]
fn total_keys_full_example() {
    // 100 GB over 1040-byte records.
    let c = config(80, 20, 0, "100GB");
    assert_eq!(c.total_keys(), 100_000_000_000 / 1040);
}

#[test]
fn total_keys_small_example() {
    // 1 MB over 1040-byte records: 1_000_000 / 1040 = 961.
    let c = config(80, 20, 0, "1MB");
    assert_eq!(c.total_keys(), 961);
}

#[test]
fn total_keys_case_insensitive_suffix() {
    assert_eq!(config(80, 20, 0, "2gb").total_keys(), 2_000_000_000 / 1040);
    assert_eq!(config(80, 20, 0, "2Gb").total_keys(), 2_000_000_000 / 1040);
    assert_eq!(config(80, 20, 0, "3mb").total_keys(), 3_000_000 / 1040);
}

#[test]
fn total_keys_without_unit_or_number() {
    // No suffix: the number is taken as plain bytes.
    assert_eq!(config(80, 20, 0, "5000").total_keys(), 5000 / 1040);
    // No numeric portion: one byte, so no whole record fits.
    assert_eq!(config(80, 20, 0, "huge").total_keys(), 0);
}

#[test]
fn generator_keys_are_deterministic() {
    let a = KeyValueGenerator::new(42, 16, 128);
    let b = KeyValueGenerator::new(42, 16, 128);
    for index in [0u64, 1, 961, u64::MAX] {
        assert_eq!(a.key_at(index), b.key_at(index));
        assert_eq!(a.key_at(index), a.key_at(index));
    }
}

#[test]
fn generator_key_format() {
    let g = KeyValueGenerator::new(42, 20, 128);
    assert_eq!(g.key_at(0), b"key_0000000000000000".to_vec());
    assert_eq!(g.key_at(961), b"key_0000000000000961".to_vec());
}

#[test]
fn generator_key_truncates_and_pads() {
    let short = KeyValueGenerator::new(42, 8, 128);
    assert_eq!(short.key_at(12), b"key_0000".to_vec());
    let long = KeyValueGenerator::new(42, 24, 128);
    let mut expected = b"key_0000000000000012".to_vec();
    expected.extend_from_slice(&[0u8; 4]);
    assert_eq!(long.key_at(12), expected);
}

#[test]
fn generator_values_are_deterministic_per_seed_and_index() {
    let a = KeyValueGenerator::new(42, 16, 64);
    let b = KeyValueGenerator::new(42, 16, 64);
    for index in [0u64, 1, 7, 10_000] {
        let va = a.value_at(index);
        assert_eq!(va.len(), 64);
        assert_eq!(va, b.value_at(index));
        assert_eq!(va, a.value_at(index));
    }
    // Different indices address different streams.
    assert_ne!(a.value_at(1), a.value_at(2));
    // The buffer really is filled from the stream, not left blank.
    assert_ne!(a.value_at(1), vec![0u8; 64]);
    // A different seed gives different bytes.
    let c = KeyValueGenerator::new(43, 16, 64);
    assert_ne!(a.value_at(1), c.value_at(1));
}

#[test]
fn generator_constant_value() {
    let g = KeyValueGenerator::new(42, 16, 5);
    assert_eq!(g.constant_value(7), vec![7u8; 5]);
}

#[test]
fn histogram_exact_percentile_of_uniform_samples() {
    let mut h = LatencyHistogram::new();
    for _ in 0..1000 {
        h.record(100);
    }
    // Every sample sits in the exact slot for 100 microseconds.
    assert_eq!(h.percentile(500), 100);
    assert_eq!(h.percentile(999), 100);
    assert_eq!(h.percentile(1000), 100);
}

#[test]
fn histogram_percentile_is_monotone() {
    let mut h = LatencyHistogram::new();
    let mut v: u64 = 1;
    for i in 0..5000u64 {
        v = v.wrapping_mul(6364136223846793005).wrapping_add(1442695040888963407);
        h.record(1 + (v % 2_000_000));
        let _ = i;
    }
    let mut last = 0u64;
    for p in 0..=1000u64 {
        let cur = h.percentile(p);
        assert!(cur >= last, "percentile not monotone at {p}");
        last = cur;
    }
}

#[test]
fn histogram_clamps_out_of_range_samples() {
    let mut h = LatencyHistogram::new();
    h.record(0);
    assert_eq!(h.percentile(1000), 1);
    let mut g = LatencyHistogram::new();
    g.record(2_000_000_000);
    // Clamped to 10^9, reported as the top of that value's slot.
    let top = g.percentile(1000);
    assert!(top >= 1_000_000_000);
    assert!(top < 1_001_000_000);
}

#[test]
fn histogram_empty_reports_zero() {
    let h = LatencyHistogram::new();
    assert_eq!(h.percentile(500), 0);
    assert_eq!(h.percentile(1000), 0);
}

#[test]
fn histogram_keeps_three_significant_digits() {
    let mut h = LatencyHistogram::new();
    h.record(123_456);
    let rep = h.percentile(1000);
    // The reported value is never below the sample and within 0.1% of it.
    assert!(rep >= 123_456);
    assert!(rep <= 123_456 + 123_456 / 1000 + 1);
}

#[test]
fn collector_tracks_classes_independently() {
    let mut c = MetricsCollector::new();
    for _ in 0..100 {
        c.record_write_latency(200);
        c.record_read_latency(50);
    }
    c.record_scan_latency(1000);
    let stats = c.get_latencies();
    assert_eq!(stats.write_p50, 200);
    assert_eq!(stats.write_p999, 200);
    assert_eq!(stats.read_p50, 50);
    assert_eq!(stats.read_p999, 50);
    assert_eq!(c.scan_p99(), 1000);
}

fn stats(bw: u64, cbw: u64, disk: Option<u64>) -> EngineStatistics {
    EngineStatistics {
        bytes_written: bw,
        bytes_read: 0,
        compaction_bytes_written: cbw,
        compaction_bytes_read: 0,
        disk_size_bytes: disk,
    }
}

#[test]
fn amplification_is_unit_without_writes() {
    for family in [EngineFamily::LogStructured, EngineFamily::PageStructured] {
        let a: Amplification = db_bench::amplification_for(family, &stats(0, 0, Some(12345)));
        assert_eq!(a.waf_centi, 100);
        assert_eq!(a.saf_centi, 100);
    }
}

#[test]
fn amplification_reported_compaction() {
    // Reported compaction counters are used as they stand.
    let a = db_bench::amplification_for(EngineFamily::LogStructured, &stats(1000, 2000, Some(5000)));
    assert_eq!(a.waf_centi, 300);
    assert_eq!(a.saf_centi, 500);
}

#[test]
fn amplification_log_structured_fallback() {
    // Without reported counters the fallback assumes twice the logical bytes.
    let a = db_bench::amplification_for(EngineFamily::LogStructured, &stats(1000, 0, None));
    assert_eq!(a.waf_centi, 300);
    assert_eq!(a.saf_centi, 100);
}

#[test]
fn amplification_page_structured_estimate() {
    // Two full pages rewritten ten times over.
    let a = db_bench::amplification_for(EngineFamily::PageStructured, &stats(16384, 0, None));
    assert_eq!(a.waf_centi, 1100);
    // A partial page is not counted as rewritten.
    let b = db_bench::amplification_for(EngineFamily::PageStructured, &stats(8000, 0, None));
    assert_eq!(b.waf_centi, 100);
}

#[test]
fn amplification_never_below_unit() {
    for bw in [0u64, 1, 999, 8192, 1 << 40] {
        for family in [EngineFamily::LogStructured, EngineFamily::PageStructured] {
            let a = db_bench::amplification_for(family, &stats(bw, 3, Some(bw)));
            assert!(a.waf_centi >= 100);
            assert!(a.saf_centi >= 100);
        }
    }
}

#[test]
fn engine_families() {
    assert_eq!(EngineType::RocksDB.family(), EngineFamily::LogStructured);
    assert_eq!(EngineType::Sled.family(), EngineFamily::PageStructured);
}
