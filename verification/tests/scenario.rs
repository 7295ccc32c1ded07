use std::collections::BTreeMap;

use db_bench::Benchmark;
use db_bench::BenchmarkResult;
use db_bench::EngineError;
use db_bench::EngineStatistics;
use db_bench::EngineType;
use db_bench::LatencyStats;
use db_bench::MetricsCollector;
use db_bench::MetricKind;
use db_bench::OpClass;
use db_bench::OpKind;
use db_bench::StorageEngine;
use db_bench::Workload;
use db_bench::WorkloadConfig;

/// An in-memory engine that echoes puts and gets with no latency.
struct FakeEngine {
    map: BTreeMap<Vec<u8>, Vec<u8>>,
    engine_type: EngineType,
    bytes_written: u64,
    bytes_read: u64,
    fail_puts: bool,
    fail_flushes: bool,
}

impl FakeEngine {
    fn new(engine_type: EngineType) -> FakeEngine {
        FakeEngine {
            map: BTreeMap::new(),
            engine_type,
            bytes_written: 0,
            bytes_read: 0,
            fail_puts: false,
            fail_flushes: false,
        }
    }
}

impl StorageEngine for FakeEngine {
    fn put(&mut self, key: &[u8], value: &[u8]) -> Result<(), EngineError> {
        if self.fail_puts {
            return Err(EngineError { message: String::from("injected put failure") });
        }
        self.bytes_written += (key.len() + value.len()) as u64;
        self.map.insert(key.to_vec(), value.to_vec());
        Ok(())
    }

    fn get(&mut self, key: &[u8]) -> Result<Option<Vec<u8>>, EngineError> {
        match self.map.get(key) {
            Some(v) => {
                self.bytes_read += (key.len() + v.len()) as u64;
                Ok(Some(v.clone()))
            },
            None => Ok(None),
        }
    }

    fn range_scan(&mut self, start: &[u8], limit: usize) -> Result<Vec<(Vec<u8>, Vec<u8>)>, EngineError> {
        Ok(self
            .map
            .range(start.to_vec()..)
            .take(limit)
            .map(|(k, v)| (k.clone(), v.clone()))
            .collect())
    }

    fn flush(&mut self) -> Result<(), EngineError> {
        if self.fail_flushes {
            return Err(EngineError { message: String::from("injected flush failure") });
        }
        Ok(())
    }

    fn engine_type(&self) -> EngineType {
        self.engine_type
    }

    fn get_statistics(&self) -> EngineStatistics {
        EngineStatistics {
            bytes_written: self.bytes_written,
            bytes_read: self.bytes_read,
            compaction_bytes_written: 0,
            compaction_bytes_read: 0,
            disk_size_bytes: Some(self.bytes_written),
        }
    }
}

fn p7_config() -> WorkloadConfig {
    WorkloadConfig {
        writes: 80,
        reads: 20,
        scans: 0,
        key_size: 16,
        value_size: 1024,
        dataset_size: b"1MB".to_vec(),
        duration: 1,
        scan_length: 100,
    }
}

#[test]
fn end_to_end_workload_run() {
    let config = p7_config();
    assert!(config.validate().is_ok());
    assert_eq!(config.total_keys(), 961);

    let mut engine = FakeEngine::new(EngineType::RocksDB);
    let mut collector = MetricsCollector::new();
    let workload = Workload::new(config);
    let result = workload.run(&mut engine, &mut collector).expect("run must complete");

    assert_eq!(result.engine_type, EngineType::RocksDB);
    assert!(result.operations > 0);
    assert!(result.throughput > 0);
    // Amplification is always reported, even with zero compaction activity.
    assert!(result.write_amplification >= 100);
    assert!(result.space_amplification >= 100);
    // The result's percentiles are exactly the collector's.
    assert_eq!(result.latencies, collector.get_latencies());
    assert_eq!(result.scan_p99, collector.scan_p99());
    // The engine really holds the populated keys: index 0, truncated to 16 bytes.
    let stored = engine.get(b"key_000000000000").unwrap();
    assert!(stored.is_some());
    assert_eq!(stored.unwrap().len(), 1024);
}

#[test]
fn workload_aborts_on_engine_failure() {
    let config = p7_config();
    let mut engine = FakeEngine::new(EngineType::Sled);
    engine.fail_puts = true;
    let mut collector = MetricsCollector::new();
    let workload = Workload::new(config);
    let failure = workload.run(&mut engine, &mut collector).expect_err("run must abort");
    assert_eq!(failure.operation, OpClass::Write);
    assert!(failure.key_index.is_some());
    assert_eq!(failure.message, "injected put failure");
}

#[test]
fn workload_aborts_on_flush_failure() {
    let config = p7_config();
    let mut engine = FakeEngine::new(EngineType::Sled);
    engine.fail_flushes = true;
    let mut collector = MetricsCollector::new();
    let workload = Workload::new(config);
    let failure = workload.run(&mut engine, &mut collector).expect_err("run must abort");
    assert_eq!(failure.operation, OpClass::Flush);
    assert!(failure.key_index.is_none());
}

#[test]
fn benchmark_runs_exact_operation_count() {
    let bench = Benchmark { write_ratio: 70, scan_ratio: 10, value_size: 64, num_operations: 2000, scan_length: 10 };
    let mut engine = FakeEngine::new(EngineType::Sled);
    let mut collector = MetricsCollector::new();
    let result = bench.run(&mut engine, &mut collector).expect("benchmark must complete");
    assert_eq!(result.operations, 2000);
    assert_eq!(result.engine_type, EngineType::Sled);
    assert!(result.write_amplification >= 100);
    // The result's percentiles are exactly the collector's.
    assert_eq!(result.latencies, collector.get_latencies());
    assert_eq!(result.scan_p99, collector.scan_p99());
}

#[test]
fn benchmark_defaults() {
    let bench = Benchmark::new();
    assert_eq!(bench.write_ratio, 70);
    assert_eq!(bench.scan_ratio, 10);
    assert_eq!(bench.value_size, 1024);
    assert_eq!(bench.num_operations, 50_000);
    assert_eq!(bench.scan_length, 100);
}

#[test]
fn operation_mix_boundaries() {
    // Buckets are checked in the order write, scan, read; a draw equal to a
    // boundary falls into the next bucket.
    assert_eq!(db_bench::select_op(0, 70, 10), OpKind::Write);
    assert_eq!(db_bench::select_op(69, 70, 10), OpKind::Write);
    assert_eq!(db_bench::select_op(70, 70, 10), OpKind::Scan);
    assert_eq!(db_bench::select_op(79, 70, 10), OpKind::Scan);
    assert_eq!(db_bench::select_op(80, 70, 10), OpKind::Read);
    assert_eq!(db_bench::select_op(99, 70, 10), OpKind::Read);
    assert_eq!(db_bench::select_op(0, 0, 0), OpKind::Read);
}

#[test]
fn throughput_is_ops_over_elapsed() {
    assert_eq!(db_bench::compute_throughput(1000, 1_000_000), 1000);
    assert_eq!(db_bench::compute_throughput(1500, 2_000_000), 750);
    assert_eq!(db_bench::compute_throughput(0, 1_000_000), 0);
    // A zero-length run counts as one microsecond.
    assert_eq!(db_bench::compute_throughput(5, 0), 5_000_000);
}

fn sample_result(engine_type: EngineType, throughput: u64) -> BenchmarkResult {
    BenchmarkResult {
        engine_type,
        throughput,
        operations: 50_000,
        duration_micros: 50_000_000,
        latencies: LatencyStats {
            write_p50: 120,
            write_p95: 340,
            write_p99: 560,
            write_p999: 780,
            read_p50: 90,
            read_p95: 210,
            read_p99: 430,
            read_p999: 650,
        },
        scan_p99: 870,
        write_amplification: 300,
        space_amplification: 110,
    }
}

#[test]
fn comparison_picks_higher_throughput() {
    // Throughputs 1000 and 1500: the second engine wins at a ratio of 1.5.
    let a = sample_result(EngineType::RocksDB, 1000);
    let b = sample_result(EngineType::Sled, 1500);
    let report = db_bench::compare_results(&a, &b);
    assert_eq!(report.rows.len(), 6);
    assert_eq!(report.rows[0].metric, MetricKind::Throughput);
    assert_eq!(report.rows[0].value_a, 1000);
    assert_eq!(report.rows[0].value_b, 1500);
    assert_eq!(report.rows[0].winner, EngineType::Sled);
    assert_eq!(report.rows[0].ratio_centi, 150);
}

#[test]
fn comparison_favors_lower_latency_and_amplification() {
    let mut a = sample_result(EngineType::RocksDB, 1000);
    let mut b = sample_result(EngineType::Sled, 1000);
    a.latencies.write_p99 = 200;
    b.latencies.write_p99 = 400;
    a.scan_p99 = 900;
    b.scan_p99 = 300;
    a.write_amplification = 600;
    b.write_amplification = 300;
    let report = db_bench::compare_results(&a, &b);
    assert_eq!(report.rows[1].metric, MetricKind::WriteP99);
    assert_eq!(report.rows[1].winner, EngineType::RocksDB);
    assert_eq!(report.rows[1].ratio_centi, 200);
    assert_eq!(report.rows[3].metric, MetricKind::ScanP99);
    assert_eq!(report.rows[3].winner, EngineType::Sled);
    assert_eq!(report.rows[3].ratio_centi, 300);
    assert_eq!(report.rows[4].metric, MetricKind::WriteAmplification);
    assert_eq!(report.rows[4].winner, EngineType::Sled);
    assert_eq!(report.rows[4].ratio_centi, 200);
}

#[test]
fn artifact_round_trips() {
    let results = vec![
        sample_result(EngineType::RocksDB, 1000),
        sample_result(EngineType::Sled, 1500),
    ];
    let rendered = db_bench::render_results(&results);
    let parsed = db_bench::parse_results(&rendered).expect("rendered artifact must parse");
    assert_eq!(parsed, results);
}

#[test]
fn artifact_round_trips_empty_list() {
    let results: Vec<BenchmarkResult> = Vec::new();
    let rendered = db_bench::render_results(&results);
    assert_eq!(rendered, b"[]".to_vec());
    let parsed = db_bench::parse_results(&rendered).expect("empty artifact must parse");
    assert!(parsed.is_empty());
}

#[test]
fn artifact_exact_shape() {
    let mut r = sample_result(EngineType::Sled, 1500);
    r.operations = 2;
    r.duration_micros = 3;
    let rendered = db_bench::render_results(&vec![r]);
    let mut expected = String::new();
    expected.push_str("[{\"engine\":\"sled\",\"throughput\":1500,\"operations\":2,\"duration_micros\":3,");
    expected.push_str("\"write_p50\":120,\"write_p95\":340,\"write_p99\":560,\"write_p999\":780,");
    expected.push_str("\"read_p50\":90,\"read_p95\":210,\"read_p99\":430,\"read_p999\":650,");
    expected.push_str("\"scan_p99\":870,\"write_amplification\":300,\"space_amplification\":110}]");
    assert_eq!(rendered, expected.into_bytes());
}

#[test]
fn artifact_rejects_malformed_input() {
    assert!(db_bench::parse_results(&b"".to_vec()).is_none());
    assert!(db_bench::parse_results(&b"[".to_vec()).is_none());
    assert!(db_bench::parse_results(&b"[]x".to_vec()).is_none());
    assert!(db_bench::parse_results(&b"[{\"engine\":\"other\"}]".to_vec()).is_none());
}

#[test]
fn csv_report_shape() {
    let mut r = sample_result(EngineType::RocksDB, 1000);
    r.operations = 1;
    r.duration_micros = 1;
    let rendered = db_bench::render_csv(&vec![r]);
    let mut expected = String::new();
    expected.push_str("engine,throughput,write_p50,write_p95,write_p99,write_p999,");
    expected.push_str("read_p50,read_p95,read_p99,read_p999,scan_p99,write_amplification,space_amplification\n");
    expected.push_str("rocksdb,1000,120,340,560,780,90,210,430,650,870,300,110\n");
    assert_eq!(rendered, expected.into_bytes());
}

#[test]
fn markdown_report_shape() {
    let a = sample_result(EngineType::RocksDB, 1000);
    let b = sample_result(EngineType::Sled, 1500);
    let report = db_bench::compare_results(&a, &b);
    let rendered = db_bench::render_markdown(&report, &a, &b);
    let text = String::from_utf8(rendered).expect("markdown must be text");
    // Per-engine value columns, then the winner and its lead.
    assert!(text.starts_with("| Metric | rocksdb | sled | Winner | Ratio (hundredths) |\n"));
    assert!(text.contains("| throughput | 1000 | 1500 | sled | 150 |\n"));
    // Equal values: the tie goes to the second engine at a ratio of 1.
    assert!(text.contains("| write_p99 | 560 | 560 | sled | 100 |\n"));
    assert!(text.contains("| scan_p99 | 870 | 870 | sled | 100 |\n"));
    // Each result gets a detail section with every figure.
    assert!(text.contains("\n### rocksdb\n"));
    assert!(text.contains("\n### sled\n"));
    assert!(text.contains("- operations: 50000\n"));
    assert!(text.contains("- duration_micros: 50000000\n"));
    assert!(text.contains("- write_p999: 780\n"));
    assert!(text.contains("- read_p50: 90\n"));
    assert!(text.contains("- scan_p99: 870\n"));
    assert!(text.contains("- write_amplification: 300\n"));
    assert!(text.contains("- space_amplification: 110\n"));
}
