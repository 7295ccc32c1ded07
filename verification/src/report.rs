use vstd::prelude::*;
use crate::amplification::EngineType;
use crate::amplification::sat_u64;
use crate::metrics::BenchmarkResult;
use crate::artifact::dec_bytes;
use crate::artifact::push_all;
use crate::artifact::push_dec;
use crate::artifact::seq_assoc;

verus! {

/// The metrics a comparison ranks two runs by.
#[derive(Clone, Copy, PartialEq, Eq, Structural, Debug)]
pub enum MetricKind {
    Throughput,
    WriteP99,
    ReadP99,
    ScanP99,
    WriteAmplification,
    SpaceAmplification,
}

/// One line of a comparison: the metric, each engine's value, the engine
/// that won it, and how far ahead the winner is, as a ratio in hundredths
/// (150 means the winner leads by a factor of 1.5).
#[derive(Clone, Copy, PartialEq, Eq, Structural, Debug)]
pub struct MetricRow {
    pub metric: MetricKind,
    pub value_a: u64,
    pub value_b: u64,
    pub winner: EngineType,
    pub ratio_centi: u64,
}

/// A ranked comparison of two completed runs: one row per metric, derived
/// purely from the two results and holding no state of its own.
pub struct ComparisonReport {
    pub rows: Vec<MetricRow>,
}

/// The winner's lead as a ratio in hundredths: the better value over the
/// worse one, saturating, and the largest representable lead when the worse
/// value is zero.
pub open spec fn ratio_centi_spec(better: nat, worse: nat) -> nat {
    if worse == 0 {
        u64::MAX as nat
    } else {
        sat_u64(better * 100 / worse)
    }
}

/// The row for a metric where a higher value wins; a tie goes to the second
/// engine.
pub open spec fn row_higher_wins(m: MetricKind, v0: u64, v1: u64, e0: EngineType, e1: EngineType) -> MetricRow {
    if v0 > v1 {
        MetricRow {
            metric: m,
            value_a: v0,
            value_b: v1,
            winner: e0,
            ratio_centi: ratio_centi_spec(v0 as nat, v1 as nat) as u64,
        }
    } else {
        MetricRow {
            metric: m,
            value_a: v0,
            value_b: v1,
            winner: e1,
            ratio_centi: ratio_centi_spec(v1 as nat, v0 as nat) as u64,
        }
    }
}

/// The row for a metric where a lower value wins; a tie goes to the second
/// engine.
pub open spec fn row_lower_wins(m: MetricKind, v0: u64, v1: u64, e0: EngineType, e1: EngineType) -> MetricRow {
    if v0 < v1 {
        MetricRow {
            metric: m,
            value_a: v0,
            value_b: v1,
            winner: e0,
            ratio_centi: ratio_centi_spec(v1 as nat, v0 as nat) as u64,
        }
    } else {
        MetricRow {
            metric: m,
            value_a: v0,
            value_b: v1,
            winner: e1,
            ratio_centi: ratio_centi_spec(v0 as nat, v1 as nat) as u64,
        }
    }
}

/// The six rows a comparison of two results consists of, in their fixed
/// order: throughput (higher wins), then the three tail latencies and the
/// two amplification ratios (lower wins).
pub open spec fn comparison_rows_spec(a: BenchmarkResult, b: BenchmarkResult) -> Seq<MetricRow> {
    seq![
        row_higher_wins(MetricKind::Throughput, a.throughput, b.throughput, a.engine_type, b.engine_type),
        row_lower_wins(
            MetricKind::WriteP99,
            a.latencies.write_p99,
            b.latencies.write_p99,
            a.engine_type,
            b.engine_type,
        ),
        row_lower_wins(
            MetricKind::ReadP99,
            a.latencies.read_p99,
            b.latencies.read_p99,
            a.engine_type,
            b.engine_type,
        ),
        row_lower_wins(MetricKind::ScanP99, a.scan_p99, b.scan_p99, a.engine_type, b.engine_type),
        row_lower_wins(
            MetricKind::WriteAmplification,
            a.write_amplification,
            b.write_amplification,
            a.engine_type,
            b.engine_type,
        ),
        row_lower_wins(
            MetricKind::SpaceAmplification,
            a.space_amplification,
            b.space_amplification,
            a.engine_type,
            b.engine_type,
        ),
    ]
}

/// Executable ratio computation matching `ratio_centi_spec`.
fn ratio_centi(better: u64, worse: u64) -> (r: u64)
    ensures
        r == ratio_centi_spec(better as nat, worse as nat),
{
    if worse == 0 {
        u64::MAX
    } else {
        let wide: u128 = better as u128 * 100 / worse as u128;
        if wide > u64::MAX as u128 {
            u64::MAX
        } else {
            wide as u64
        }
    }
}

/// Executable row construction for higher-wins metrics.
fn make_row_higher(m: MetricKind, v0: u64, v1: u64, e0: EngineType, e1: EngineType) -> (r:
    MetricRow)
    ensures
        r == row_higher_wins(m, v0, v1, e0, e1),
{
    if v0 > v1 {
        MetricRow { metric: m, value_a: v0, value_b: v1, winner: e0, ratio_centi: ratio_centi(v0, v1) }
    } else {
        MetricRow { metric: m, value_a: v0, value_b: v1, winner: e1, ratio_centi: ratio_centi(v1, v0) }
    }
}

/// Executable row construction for lower-wins metrics.
fn make_row_lower(m: MetricKind, v0: u64, v1: u64, e0: EngineType, e1: EngineType) -> (r:
    MetricRow)
    ensures
        r == row_lower_wins(m, v0, v1, e0, e1),
{
    if v0 < v1 {
        MetricRow { metric: m, value_a: v0, value_b: v1, winner: e0, ratio_centi: ratio_centi(v1, v0) }
    } else {
        MetricRow { metric: m, value_a: v0, value_b: v1, winner: e1, ratio_centi: ratio_centi(v0, v1) }
    }
}

/// Compares two completed runs metric by metric: throughput favors the
/// higher value, latency and amplification favor the lower, and every row
/// carries both values, the winning engine and its lead.
pub fn compare_results(a: &BenchmarkResult, b: &BenchmarkResult) -> (r: ComparisonReport)
    ensures
        r.rows@ == comparison_rows_spec(*a, *b),
{
    let mut rows: Vec<MetricRow> = Vec::new();
    rows.push(
        make_row_higher(MetricKind::Throughput, a.throughput, b.throughput, a.engine_type, b.engine_type),
    );
    rows.push(
        make_row_lower(
            MetricKind::WriteP99,
            a.latencies.write_p99,
            b.latencies.write_p99,
            a.engine_type,
            b.engine_type,
        ),
    );
    rows.push(
        make_row_lower(
            MetricKind::ReadP99,
            a.latencies.read_p99,
            b.latencies.read_p99,
            a.engine_type,
            b.engine_type,
        ),
    );
    rows.push(
        make_row_lower(MetricKind::ScanP99, a.scan_p99, b.scan_p99, a.engine_type, b.engine_type),
    );
    rows.push(
        make_row_lower(
            MetricKind::WriteAmplification,
            a.write_amplification,
            b.write_amplification,
            a.engine_type,
            b.engine_type,
        ),
    );
    rows.push(
        make_row_lower(
            MetricKind::SpaceAmplification,
            a.space_amplification,
            b.space_amplification,
            a.engine_type,
            b.engine_type,
        ),
    );
    proof {
        assert(rows@ =~= comparison_rows_spec(*a, *b));
    }
    ComparisonReport { rows }
}

/// A piece of the CSV header.
pub open spec fn csv_header_0() -> Seq<u8> {
    seq![101u8, 110, 103, 105, 110, 101, 44, 116, 104, 114, 111, 117, 103, 104, 112, 117, 116, 44, 119, 114, 105, 116, 101, 95, 112, 53, 48, 44]
}

/// A piece of the CSV header.
pub open spec fn csv_header_1() -> Seq<u8> {
    seq![119u8, 114, 105, 116, 101, 95, 112, 57, 53, 44, 119, 114, 105, 116, 101, 95, 112, 57, 57, 44, 119, 114, 105, 116, 101, 95, 112, 57]
}

/// A piece of the CSV header.
pub open spec fn csv_header_2() -> Seq<u8> {
    seq![57u8, 57, 44, 114, 101, 97, 100, 95, 112, 53, 48, 44, 114, 101, 97, 100, 95, 112, 57, 53, 44, 114, 101, 97, 100, 95, 112, 57]
}

/// A piece of the CSV header.
pub open spec fn csv_header_3() -> Seq<u8> {
    seq![57u8, 44, 114, 101, 97, 100, 95, 112, 57, 57, 57, 44, 115, 99, 97, 110, 95, 112, 57, 57, 44, 119, 114, 105, 116, 101, 95, 97]
}

/// A piece of the CSV header.
pub open spec fn csv_header_4() -> Seq<u8> {
    seq![109u8, 112, 108, 105, 102, 105, 99, 97, 116, 105, 111, 110, 44, 115, 112, 97, 99, 101, 95, 97, 109, 112, 108, 105, 102, 105, 99, 97]
}

/// A piece of the CSV header.
pub open spec fn csv_header_5() -> Seq<u8> {
    seq![116u8, 105, 111, 110, 10]
}

/// The CSV header: the fixed column order of the flat per-engine rows.
pub open spec fn csv_header() -> Seq<u8> {
    csv_header_0() + csv_header_1() + csv_header_2() + csv_header_3() + csv_header_4() + csv_header_5()
}

/// A comma.
pub open spec fn csv_sep() -> Seq<u8> {
    seq![44u8]
}

/// A line break.
pub open spec fn line_break() -> Seq<u8> {
    seq![10u8]
}

/// The display name of an engine.
pub open spec fn engine_name(e: EngineType) -> Seq<u8> {
    match e {
        EngineType::RocksDB => seq![114u8, 111, 99, 107, 115, 100, 98],
        EngineType::Sled => seq![115u8, 108, 101, 100],
    }
}

/// The display name of a metric.
pub open spec fn metric_name(m: MetricKind) -> Seq<u8> {
    match m {
        MetricKind::Throughput => seq![116u8, 104, 114, 111, 117, 103, 104, 112, 117, 116],
        MetricKind::WriteP99 => seq![119u8, 114, 105, 116, 101, 95, 112, 57, 57],
        MetricKind::ReadP99 => seq![114u8, 101, 97, 100, 95, 112, 57, 57],
        MetricKind::ScanP99 => seq![115u8, 99, 97, 110, 95, 112, 57, 57],
        MetricKind::WriteAmplification => seq![119u8, 114, 105, 116, 101, 95, 97, 109, 112, 108, 105, 102, 105, 99, 97, 116, 105, 111, 110],
        MetricKind::SpaceAmplification => seq![115u8, 112, 97, 99, 101, 95, 97, 109, 112, 108, 105, 102, 105, 99, 97, 116, 105, 111, 110],
    }
}

/// One CSV row: the engine name and every figure, in the header's order.
#[verifier::opaque]
pub open spec fn csv_line(r: BenchmarkResult) -> Seq<u8> {
    engine_name(r.engine_type) + csv_sep() + dec_bytes(r.throughput as nat) + csv_sep() + dec_bytes(r.latencies.write_p50 as nat) + csv_sep() + dec_bytes(r.latencies.write_p95 as nat) + csv_sep() + dec_bytes(r.latencies.write_p99 as nat) + csv_sep() + dec_bytes(r.latencies.write_p999 as nat) + csv_sep() + dec_bytes(r.latencies.read_p50 as nat) + csv_sep() + dec_bytes(r.latencies.read_p95 as nat) + csv_sep() + dec_bytes(r.latencies.read_p99 as nat) + csv_sep() + dec_bytes(r.latencies.read_p999 as nat) + csv_sep() + dec_bytes(r.scan_p99 as nat) + csv_sep() + dec_bytes(r.write_amplification as nat) + csv_sep() + dec_bytes(r.space_amplification as nat) + line_break()
}

/// The CSV rows of a result list, concatenated.
pub open spec fn csv_lines(rs: Seq<BenchmarkResult>) -> Seq<u8>
    decreases rs.len(),
{
    if rs.len() == 0 {
        Seq::empty()
    } else {
        csv_line(rs[0]) + csv_lines(rs.skip(1))
    }
}

/// The whole CSV report: the header, then one row per result.
pub open spec fn render_csv_spec(rs: Seq<BenchmarkResult>) -> Seq<u8> {
    csv_header() + csv_lines(rs)
}

/// Opening of the markdown table heading, before the first engine name.
pub open spec fn md_head_open() -> Seq<u8> {
    seq![124u8, 32, 77, 101, 116, 114, 105, 99, 32, 124, 32]
}

/// Separator between the two engine-name columns of the heading.
pub open spec fn md_head_sep() -> Seq<u8> {
    seq![32u8, 124, 32]
}

/// A piece of the markdown heading's tail.
pub open spec fn md_head_tail_0() -> Seq<u8> {
    seq![32u8, 124, 32, 87, 105, 110, 110, 101, 114, 32, 124, 32, 82, 97, 116, 105, 111, 32, 40, 104, 117, 110, 100, 114, 101, 100, 116, 104]
}

/// A piece of the markdown heading's tail.
pub open spec fn md_head_tail_1() -> Seq<u8> {
    seq![115u8, 41, 32, 124, 10, 124, 45, 45, 45, 45, 45, 45, 45, 45, 124, 45, 45, 45, 45, 45, 45, 45, 45, 124, 45, 45, 45, 45]
}

/// A piece of the markdown heading's tail.
pub open spec fn md_head_tail_2() -> Seq<u8> {
    seq![45u8, 45, 45, 45, 124, 45, 45, 45, 45, 45, 45, 45, 45, 124, 45, 45, 45, 45, 45, 45, 45, 45, 124, 10]
}

/// Tail of the markdown table heading, after the engine names.
pub open spec fn md_head_tail() -> Seq<u8> {
    md_head_tail_0() + md_head_tail_1() + md_head_tail_2()
}

/// The markdown table heading: a metric column, one value column per
/// engine, the winner and the ratio.
pub open spec fn md_header(ea: EngineType, eb: EngineType) -> Seq<u8> {
    md_head_open() + engine_name(ea) + md_head_sep() + engine_name(eb) + md_head_tail()
}

/// A markdown cell boundary.
pub open spec fn md_open() -> Seq<u8> {
    seq![124u8, 32]
}

/// A markdown cell separator.
pub open spec fn md_mid() -> Seq<u8> {
    seq![32u8, 124, 32]
}

/// A markdown row ending.
pub open spec fn md_end() -> Seq<u8> {
    seq![32u8, 124]
}

/// One markdown row of a comparison: the metric, both engines' values, the
/// winning engine and the winner's lead.
#[verifier::opaque]
pub open spec fn md_line(row: MetricRow) -> Seq<u8> {
    md_open() + metric_name(row.metric) + md_mid() + dec_bytes(row.value_a as nat) + md_mid()
        + dec_bytes(row.value_b as nat) + md_mid() + engine_name(row.winner) + md_mid()
        + dec_bytes(row.ratio_centi as nat) + md_end() + line_break()
}

/// The markdown rows of a comparison, concatenated.
pub open spec fn md_lines(rows: Seq<MetricRow>) -> Seq<u8>
    decreases rows.len(),
{
    if rows.len() == 0 {
        Seq::empty()
    } else {
        md_line(rows[0]) + md_lines(rows.skip(1))
    }
}

/// Heading of a per-result detail section.
pub open spec fn md_detail_head() -> Seq<u8> {
    seq![10u8, 35, 35, 35, 32]
}

/// Label of the `throughput` detail line.
pub open spec fn md_detail_throughput() -> Seq<u8> {
    seq![45u8, 32, 116, 104, 114, 111, 117, 103, 104, 112, 117, 116, 58, 32]
}

/// Label of the `operations` detail line.
pub open spec fn md_detail_operations() -> Seq<u8> {
    seq![45u8, 32, 111, 112, 101, 114, 97, 116, 105, 111, 110, 115, 58, 32]
}

/// Label of the `duration_micros` detail line.
pub open spec fn md_detail_duration_micros() -> Seq<u8> {
    seq![45u8, 32, 100, 117, 114, 97, 116, 105, 111, 110, 95, 109, 105, 99, 114, 111, 115, 58, 32]
}

/// Label of the `write_p50` detail line.
pub open spec fn md_detail_write_p50() -> Seq<u8> {
    seq![45u8, 32, 119, 114, 105, 116, 101, 95, 112, 53, 48, 58, 32]
}

/// Label of the `write_p95` detail line.
pub open spec fn md_detail_write_p95() -> Seq<u8> {
    seq![45u8, 32, 119, 114, 105, 116, 101, 95, 112, 57, 53, 58, 32]
}

/// Label of the `write_p99` detail line.
pub open spec fn md_detail_write_p99() -> Seq<u8> {
    seq![45u8, 32, 119, 114, 105, 116, 101, 95, 112, 57, 57, 58, 32]
}

/// Label of the `write_p999` detail line.
pub open spec fn md_detail_write_p999() -> Seq<u8> {
    seq![45u8, 32, 119, 114, 105, 116, 101, 95, 112, 57, 57, 57, 58, 32]
}

/// Label of the `read_p50` detail line.
pub open spec fn md_detail_read_p50() -> Seq<u8> {
    seq![45u8, 32, 114, 101, 97, 100, 95, 112, 53, 48, 58, 32]
}

/// Label of the `read_p95` detail line.
pub open spec fn md_detail_read_p95() -> Seq<u8> {
    seq![45u8, 32, 114, 101, 97, 100, 95, 112, 57, 53, 58, 32]
}

/// Label of the `read_p99` detail line.
pub open spec fn md_detail_read_p99() -> Seq<u8> {
    seq![45u8, 32, 114, 101, 97, 100, 95, 112, 57, 57, 58, 32]
}

/// Label of the `read_p999` detail line.
pub open spec fn md_detail_read_p999() -> Seq<u8> {
    seq![45u8, 32, 114, 101, 97, 100, 95, 112, 57, 57, 57, 58, 32]
}

/// Label of the `scan_p99` detail line.
pub open spec fn md_detail_scan_p99() -> Seq<u8> {
    seq![45u8, 32, 115, 99, 97, 110, 95, 112, 57, 57, 58, 32]
}

/// Label of the `write_amplification` detail line.
pub open spec fn md_detail_write_amplification() -> Seq<u8> {
    seq![45u8, 32, 119, 114, 105, 116, 101, 95, 97, 109, 112, 108, 105, 102, 105, 99, 97, 116, 105, 111, 110, 58, 32]
}

/// Label of the `space_amplification` detail line.
pub open spec fn md_detail_space_amplification() -> Seq<u8> {
    seq![45u8, 32, 115, 112, 97, 99, 101, 95, 97, 109, 112, 108, 105, 102, 105, 99, 97, 116, 105, 111, 110, 58, 32]
}

/// The detail section of one result: its engine heading, then every figure
/// of the record on a line of its own.
#[verifier::opaque]
pub open spec fn md_detail(r: BenchmarkResult) -> Seq<u8> {
    md_detail_head() + engine_name(r.engine_type) + line_break() + md_detail_throughput() + dec_bytes(r.throughput as nat) + line_break() + md_detail_operations() + dec_bytes(r.operations as nat) + line_break() + md_detail_duration_micros() + dec_bytes(r.duration_micros as nat) + line_break() + md_detail_write_p50() + dec_bytes(r.latencies.write_p50 as nat) + line_break() + md_detail_write_p95() + dec_bytes(r.latencies.write_p95 as nat) + line_break() + md_detail_write_p99() + dec_bytes(r.latencies.write_p99 as nat) + line_break() + md_detail_write_p999() + dec_bytes(r.latencies.write_p999 as nat) + line_break() + md_detail_read_p50() + dec_bytes(r.latencies.read_p50 as nat) + line_break() + md_detail_read_p95() + dec_bytes(r.latencies.read_p95 as nat) + line_break() + md_detail_read_p99() + dec_bytes(r.latencies.read_p99 as nat) + line_break() + md_detail_read_p999() + dec_bytes(r.latencies.read_p999 as nat) + line_break() + md_detail_scan_p99() + dec_bytes(r.scan_p99 as nat) + line_break() + md_detail_write_amplification() + dec_bytes(r.write_amplification as nat) + line_break() + md_detail_space_amplification() + dec_bytes(r.space_amplification as nat) + line_break()
}

/// The whole markdown report: the comparison table over the two results,
/// then a detail section for each.
pub open spec fn render_markdown_spec(rows: Seq<MetricRow>, a: BenchmarkResult, b: BenchmarkResult) -> Seq<u8> {
    md_header(a.engine_type, b.engine_type) + md_lines(rows) + md_detail(a) + md_detail(b)
}

/// The `rocks_name` text as a vector.
fn rocks_name_vec() -> (r: Vec<u8>)
    ensures
        r@ == engine_name(EngineType::RocksDB),
{
    let mut v: Vec<u8> = Vec::new();
    v.push(114);
    v.push(111);
    v.push(99);
    v.push(107);
    v.push(115);
    v.push(100);
    v.push(98);
    proof {
        assert(v@ =~= engine_name(EngineType::RocksDB));
    }
    v
}

/// The `sled_name` text as a vector.
fn sled_name_vec() -> (r: Vec<u8>)
    ensures
        r@ == engine_name(EngineType::Sled),
{
    let mut v: Vec<u8> = Vec::new();
    v.push(115);
    v.push(108);
    v.push(101);
    v.push(100);
    proof {
        assert(v@ =~= engine_name(EngineType::Sled));
    }
    v
}

/// The `md_head_open` text as a vector.
fn md_head_open_vec() -> (r: Vec<u8>)
    ensures
        r@ == md_head_open(),
{
    let mut v: Vec<u8> = Vec::new();
    v.push(124);
    v.push(32);
    v.push(77);
    v.push(101);
    v.push(116);
    v.push(114);
    v.push(105);
    v.push(99);
    v.push(32);
    v.push(124);
    v.push(32);
    proof {
        assert(v@ =~= md_head_open());
    }
    v
}

/// The `md_head_sep` text as a vector.
fn md_head_sep_vec() -> (r: Vec<u8>)
    ensures
        r@ == md_head_sep(),
{
    let mut v: Vec<u8> = Vec::new();
    v.push(32);
    v.push(124);
    v.push(32);
    proof {
        assert(v@ =~= md_head_sep());
    }
    v
}

/// The `md_open` text as a vector.
fn md_open_vec() -> (r: Vec<u8>)
    ensures
        r@ == md_open(),
{
    let mut v: Vec<u8> = Vec::new();
    v.push(124);
    v.push(32);
    proof {
        assert(v@ =~= md_open());
    }
    v
}

/// The `md_mid` text as a vector.
fn md_mid_vec() -> (r: Vec<u8>)
    ensures
        r@ == md_mid(),
{
    let mut v: Vec<u8> = Vec::new();
    v.push(32);
    v.push(124);
    v.push(32);
    proof {
        assert(v@ =~= md_mid());
    }
    v
}

/// The `md_end` text as a vector.
fn md_end_vec() -> (r: Vec<u8>)
    ensures
        r@ == md_end(),
{
    let mut v: Vec<u8> = Vec::new();
    v.push(32);
    v.push(124);
    proof {
        assert(v@ =~= md_end());
    }
    v
}

/// The `md_detail_head` text as a vector.
fn md_detail_head_vec() -> (r: Vec<u8>)
    ensures
        r@ == md_detail_head(),
{
    let mut v: Vec<u8> = Vec::new();
    v.push(10);
    v.push(35);
    v.push(35);
    v.push(35);
    v.push(32);
    proof {
        assert(v@ =~= md_detail_head());
    }
    v
}

/// The `m_throughput` text as a vector.
fn m_throughput_vec() -> (r: Vec<u8>)
    ensures
        r@ == metric_name(MetricKind::Throughput),
{
    let mut v: Vec<u8> = Vec::new();
    v.push(116);
    v.push(104);
    v.push(114);
    v.push(111);
    v.push(117);
    v.push(103);
    v.push(104);
    v.push(112);
    v.push(117);
    v.push(116);
    proof {
        assert(v@ =~= metric_name(MetricKind::Throughput));
    }
    v
}

/// The `m_write_p99` text as a vector.
fn m_write_p99_vec() -> (r: Vec<u8>)
    ensures
        r@ == metric_name(MetricKind::WriteP99),
{
    let mut v: Vec<u8> = Vec::new();
    v.push(119);
    v.push(114);
    v.push(105);
    v.push(116);
    v.push(101);
    v.push(95);
    v.push(112);
    v.push(57);
    v.push(57);
    proof {
        assert(v@ =~= metric_name(MetricKind::WriteP99));
    }
    v
}

/// The `m_read_p99` text as a vector.
fn m_read_p99_vec() -> (r: Vec<u8>)
    ensures
        r@ == metric_name(MetricKind::ReadP99),
{
    let mut v: Vec<u8> = Vec::new();
    v.push(114);
    v.push(101);
    v.push(97);
    v.push(100);
    v.push(95);
    v.push(112);
    v.push(57);
    v.push(57);
    proof {
        assert(v@ =~= metric_name(MetricKind::ReadP99));
    }
    v
}

/// The `m_scan_p99` text as a vector.
fn m_scan_p99_vec() -> (r: Vec<u8>)
    ensures
        r@ == metric_name(MetricKind::ScanP99),
{
    let mut v: Vec<u8> = Vec::new();
    v.push(115);
    v.push(99);
    v.push(97);
    v.push(110);
    v.push(95);
    v.push(112);
    v.push(57);
    v.push(57);
    proof {
        assert(v@ =~= metric_name(MetricKind::ScanP99));
    }
    v
}

/// The `m_write_amplification` text as a vector.
fn m_write_amplification_vec() -> (r: Vec<u8>)
    ensures
        r@ == metric_name(MetricKind::WriteAmplification),
{
    let mut v: Vec<u8> = Vec::new();
    v.push(119);
    v.push(114);
    v.push(105);
    v.push(116);
    v.push(101);
    v.push(95);
    v.push(97);
    v.push(109);
    v.push(112);
    v.push(108);
    v.push(105);
    v.push(102);
    v.push(105);
    v.push(99);
    v.push(97);
    v.push(116);
    v.push(105);
    v.push(111);
    v.push(110);
    proof {
        assert(v@ =~= metric_name(MetricKind::WriteAmplification));
    }
    v
}

/// The `m_space_amplification` text as a vector.
fn m_space_amplification_vec() -> (r: Vec<u8>)
    ensures
        r@ == metric_name(MetricKind::SpaceAmplification),
{
    let mut v: Vec<u8> = Vec::new();
    v.push(115);
    v.push(112);
    v.push(97);
    v.push(99);
    v.push(101);
    v.push(95);
    v.push(97);
    v.push(109);
    v.push(112);
    v.push(108);
    v.push(105);
    v.push(102);
    v.push(105);
    v.push(99);
    v.push(97);
    v.push(116);
    v.push(105);
    v.push(111);
    v.push(110);
    proof {
        assert(v@ =~= metric_name(MetricKind::SpaceAmplification));
    }
    v
}

/// The `md_detail_throughput` text as a vector.
fn md_detail_throughput_vec() -> (r: Vec<u8>)
    ensures
        r@ == md_detail_throughput(),
{
    let mut v: Vec<u8> = Vec::new();
    v.push(45);
    v.push(32);
    v.push(116);
    v.push(104);
    v.push(114);
    v.push(111);
    v.push(117);
    v.push(103);
    v.push(104);
    v.push(112);
    v.push(117);
    v.push(116);
    v.push(58);
    v.push(32);
    proof {
        assert(v@ =~= md_detail_throughput());
    }
    v
}

/// The `md_detail_operations` text as a vector.
fn md_detail_operations_vec() -> (r: Vec<u8>)
    ensures
        r@ == md_detail_operations(),
{
    let mut v: Vec<u8> = Vec::new();
    v.push(45);
    v.push(32);
    v.push(111);
    v.push(112);
    v.push(101);
    v.push(114);
    v.push(97);
    v.push(116);
    v.push(105);
    v.push(111);
    v.push(110);
    v.push(115);
    v.push(58);
    v.push(32);
    proof {
        assert(v@ =~= md_detail_operations());
    }
    v
}

/// The `md_detail_duration_micros` text as a vector.
fn md_detail_duration_micros_vec() -> (r: Vec<u8>)
    ensures
        r@ == md_detail_duration_micros(),
{
    let mut v: Vec<u8> = Vec::new();
    v.push(45);
    v.push(32);
    v.push(100);
    v.push(117);
    v.push(114);
    v.push(97);
    v.push(116);
    v.push(105);
    v.push(111);
    v.push(110);
    v.push(95);
    v.push(109);
    v.push(105);
    v.push(99);
    v.push(114);
    v.push(111);
    v.push(115);
    v.push(58);
    v.push(32);
    proof {
        assert(v@ =~= md_detail_duration_micros());
    }
    v
}

/// The `md_detail_write_p50` text as a vector.
fn md_detail_write_p50_vec() -> (r: Vec<u8>)
    ensures
        r@ == md_detail_write_p50(),
{
    let mut v: Vec<u8> = Vec::new();
    v.push(45);
    v.push(32);
    v.push(119);
    v.push(114);
    v.push(105);
    v.push(116);
    v.push(101);
    v.push(95);
    v.push(112);
    v.push(53);
    v.push(48);
    v.push(58);
    v.push(32);
    proof {
        assert(v@ =~= md_detail_write_p50());
    }
    v
}

/// The `md_detail_write_p95` text as a vector.
fn md_detail_write_p95_vec() -> (r: Vec<u8>)
    ensures
        r@ == md_detail_write_p95(),
{
    let mut v: Vec<u8> = Vec::new();
    v.push(45);
    v.push(32);
    v.push(119);
    v.push(114);
    v.push(105);
    v.push(116);
    v.push(101);
    v.push(95);
    v.push(112);
    v.push(57);
    v.push(53);
    v.push(58);
    v.push(32);
    proof {
        assert(v@ =~= md_detail_write_p95());
    }
    v
}

/// The `md_detail_write_p99` text as a vector.
fn md_detail_write_p99_vec() -> (r: Vec<u8>)
    ensures
        r@ == md_detail_write_p99(),
{
    let mut v: Vec<u8> = Vec::new();
    v.push(45);
    v.push(32);
    v.push(119);
    v.push(114);
    v.push(105);
    v.push(116);
    v.push(101);
    v.push(95);
    v.push(112);
    v.push(57);
    v.push(57);
    v.push(58);
    v.push(32);
    proof {
        assert(v@ =~= md_detail_write_p99());
    }
    v
}

/// The `md_detail_write_p999` text as a vector.
fn md_detail_write_p999_vec() -> (r: Vec<u8>)
    ensures
        r@ == md_detail_write_p999(),
{
    let mut v: Vec<u8> = Vec::new();
    v.push(45);
    v.push(32);
    v.push(119);
    v.push(114);
    v.push(105);
    v.push(116);
    v.push(101);
    v.push(95);
    v.push(112);
    v.push(57);
    v.push(57);
    v.push(57);
    v.push(58);
    v.push(32);
    proof {
        assert(v@ =~= md_detail_write_p999());
    }
    v
}

/// The `md_detail_read_p50` text as a vector.
fn md_detail_read_p50_vec() -> (r: Vec<u8>)
    ensures
        r@ == md_detail_read_p50(),
{
    let mut v: Vec<u8> = Vec::new();
    v.push(45);
    v.push(32);
    v.push(114);
    v.push(101);
    v.push(97);
    v.push(100);
    v.push(95);
    v.push(112);
    v.push(53);
    v.push(48);
    v.push(58);
    v.push(32);
    proof {
        assert(v@ =~= md_detail_read_p50());
    }
    v
}

/// The `md_detail_read_p95` text as a vector.
fn md_detail_read_p95_vec() -> (r: Vec<u8>)
    ensures
        r@ == md_detail_read_p95(),
{
    let mut v: Vec<u8> = Vec::new();
    v.push(45);
    v.push(32);
    v.push(114);
    v.push(101);
    v.push(97);
    v.push(100);
    v.push(95);
    v.push(112);
    v.push(57);
    v.push(53);
    v.push(58);
    v.push(32);
    proof {
        assert(v@ =~= md_detail_read_p95());
    }
    v
}

/// The `md_detail_read_p99` text as a vector.
fn md_detail_read_p99_vec() -> (r: Vec<u8>)
    ensures
        r@ == md_detail_read_p99(),
{
    let mut v: Vec<u8> = Vec::new();
    v.push(45);
    v.push(32);
    v.push(114);
    v.push(101);
    v.push(97);
    v.push(100);
    v.push(95);
    v.push(112);
    v.push(57);
    v.push(57);
    v.push(58);
    v.push(32);
    proof {
        assert(v@ =~= md_detail_read_p99());
    }
    v
}

/// The `md_detail_read_p999` text as a vector.
fn md_detail_read_p999_vec() -> (r: Vec<u8>)
    ensures
        r@ == md_detail_read_p999(),
{
    let mut v: Vec<u8> = Vec::new();
    v.push(45);
    v.push(32);
    v.push(114);
    v.push(101);
    v.push(97);
    v.push(100);
    v.push(95);
    v.push(112);
    v.push(57);
    v.push(57);
    v.push(57);
    v.push(58);
    v.push(32);
    proof {
        assert(v@ =~= md_detail_read_p999());
    }
    v
}

/// The `md_detail_scan_p99` text as a vector.
fn md_detail_scan_p99_vec() -> (r: Vec<u8>)
    ensures
        r@ == md_detail_scan_p99(),
{
    let mut v: Vec<u8> = Vec::new();
    v.push(45);
    v.push(32);
    v.push(115);
    v.push(99);
    v.push(97);
    v.push(110);
    v.push(95);
    v.push(112);
    v.push(57);
    v.push(57);
    v.push(58);
    v.push(32);
    proof {
        assert(v@ =~= md_detail_scan_p99());
    }
    v
}

/// The `md_detail_write_amplification` text as a vector.
fn md_detail_write_amplification_vec() -> (r: Vec<u8>)
    ensures
        r@ == md_detail_write_amplification(),
{
    let mut v: Vec<u8> = Vec::new();
    v.push(45);
    v.push(32);
    v.push(119);
    v.push(114);
    v.push(105);
    v.push(116);
    v.push(101);
    v.push(95);
    v.push(97);
    v.push(109);
    v.push(112);
    v.push(108);
    v.push(105);
    v.push(102);
    v.push(105);
    v.push(99);
    v.push(97);
    v.push(116);
    v.push(105);
    v.push(111);
    v.push(110);
    v.push(58);
    v.push(32);
    proof {
        assert(v@ =~= md_detail_write_amplification());
    }
    v
}

/// The `md_detail_space_amplification` text as a vector.
fn md_detail_space_amplification_vec() -> (r: Vec<u8>)
    ensures
        r@ == md_detail_space_amplification(),
{
    let mut v: Vec<u8> = Vec::new();
    v.push(45);
    v.push(32);
    v.push(115);
    v.push(112);
    v.push(97);
    v.push(99);
    v.push(101);
    v.push(95);
    v.push(97);
    v.push(109);
    v.push(112);
    v.push(108);
    v.push(105);
    v.push(102);
    v.push(105);
    v.push(99);
    v.push(97);
    v.push(116);
    v.push(105);
    v.push(111);
    v.push(110);
    v.push(58);
    v.push(32);
    proof {
        assert(v@ =~= md_detail_space_amplification());
    }
    v
}

/// The `csv_header` text as a vector.
fn csv_header_vec() -> (r: Vec<u8>)
    ensures
        r@ == csv_header(),
{
    let mut v: Vec<u8> = Vec::new();
    let mut c0: Vec<u8> = Vec::new();
    c0.push(101);
    c0.push(110);
    c0.push(103);
    c0.push(105);
    c0.push(110);
    c0.push(101);
    c0.push(44);
    c0.push(116);
    c0.push(104);
    c0.push(114);
    c0.push(111);
    c0.push(117);
    c0.push(103);
    c0.push(104);
    c0.push(112);
    c0.push(117);
    c0.push(116);
    c0.push(44);
    c0.push(119);
    c0.push(114);
    c0.push(105);
    c0.push(116);
    c0.push(101);
    c0.push(95);
    c0.push(112);
    c0.push(53);
    c0.push(48);
    c0.push(44);
    proof {
        assert(c0@ =~= csv_header_0());
    }
    push_all(&mut v, &c0);
    let mut c1: Vec<u8> = Vec::new();
    c1.push(119);
    c1.push(114);
    c1.push(105);
    c1.push(116);
    c1.push(101);
    c1.push(95);
    c1.push(112);
    c1.push(57);
    c1.push(53);
    c1.push(44);
    c1.push(119);
    c1.push(114);
    c1.push(105);
    c1.push(116);
    c1.push(101);
    c1.push(95);
    c1.push(112);
    c1.push(57);
    c1.push(57);
    c1.push(44);
    c1.push(119);
    c1.push(114);
    c1.push(105);
    c1.push(116);
    c1.push(101);
    c1.push(95);
    c1.push(112);
    c1.push(57);
    proof {
        assert(c1@ =~= csv_header_1());
    }
    push_all(&mut v, &c1);
    proof {
        seq_assoc(Seq::<u8>::empty(), csv_header_0(), csv_header_1());
    }
    let mut c2: Vec<u8> = Vec::new();
    c2.push(57);
    c2.push(57);
    c2.push(44);
    c2.push(114);
    c2.push(101);
    c2.push(97);
    c2.push(100);
    c2.push(95);
    c2.push(112);
    c2.push(53);
    c2.push(48);
    c2.push(44);
    c2.push(114);
    c2.push(101);
    c2.push(97);
    c2.push(100);
    c2.push(95);
    c2.push(112);
    c2.push(57);
    c2.push(53);
    c2.push(44);
    c2.push(114);
    c2.push(101);
    c2.push(97);
    c2.push(100);
    c2.push(95);
    c2.push(112);
    c2.push(57);
    proof {
        assert(c2@ =~= csv_header_2());
    }
    push_all(&mut v, &c2);
    proof {
        seq_assoc(Seq::<u8>::empty(), csv_header_0() + csv_header_1(), csv_header_2());
    }
    let mut c3: Vec<u8> = Vec::new();
    c3.push(57);
    c3.push(44);
    c3.push(114);
    c3.push(101);
    c3.push(97);
    c3.push(100);
    c3.push(95);
    c3.push(112);
    c3.push(57);
    c3.push(57);
    c3.push(57);
    c3.push(44);
    c3.push(115);
    c3.push(99);
    c3.push(97);
    c3.push(110);
    c3.push(95);
    c3.push(112);
    c3.push(57);
    c3.push(57);
    c3.push(44);
    c3.push(119);
    c3.push(114);
    c3.push(105);
    c3.push(116);
    c3.push(101);
    c3.push(95);
    c3.push(97);
    proof {
        assert(c3@ =~= csv_header_3());
    }
    push_all(&mut v, &c3);
    proof {
        seq_assoc(Seq::<u8>::empty(), csv_header_0() + csv_header_1() + csv_header_2(), csv_header_3());
    }
    let mut c4: Vec<u8> = Vec::new();
    c4.push(109);
    c4.push(112);
    c4.push(108);
    c4.push(105);
    c4.push(102);
    c4.push(105);
    c4.push(99);
    c4.push(97);
    c4.push(116);
    c4.push(105);
    c4.push(111);
    c4.push(110);
    c4.push(44);
    c4.push(115);
    c4.push(112);
    c4.push(97);
    c4.push(99);
    c4.push(101);
    c4.push(95);
    c4.push(97);
    c4.push(109);
    c4.push(112);
    c4.push(108);
    c4.push(105);
    c4.push(102);
    c4.push(105);
    c4.push(99);
    c4.push(97);
    proof {
        assert(c4@ =~= csv_header_4());
    }
    push_all(&mut v, &c4);
    proof {
        seq_assoc(Seq::<u8>::empty(), csv_header_0() + csv_header_1() + csv_header_2() + csv_header_3(), csv_header_4());
    }
    let mut c5: Vec<u8> = Vec::new();
    c5.push(116);
    c5.push(105);
    c5.push(111);
    c5.push(110);
    c5.push(10);
    proof {
        assert(c5@ =~= csv_header_5());
    }
    push_all(&mut v, &c5);
    proof {
        seq_assoc(Seq::<u8>::empty(), csv_header_0() + csv_header_1() + csv_header_2() + csv_header_3() + csv_header_4(), csv_header_5());
    }
    proof {
        assert(Seq::<u8>::empty() + csv_header() =~= csv_header());
    }
    v
}

/// The `md_head_tail` text as a vector.
fn md_head_tail_vec() -> (r: Vec<u8>)
    ensures
        r@ == md_head_tail(),
{
    let mut v: Vec<u8> = Vec::new();
    let mut c0: Vec<u8> = Vec::new();
    c0.push(32);
    c0.push(124);
    c0.push(32);
    c0.push(87);
    c0.push(105);
    c0.push(110);
    c0.push(110);
    c0.push(101);
    c0.push(114);
    c0.push(32);
    c0.push(124);
    c0.push(32);
    c0.push(82);
    c0.push(97);
    c0.push(116);
    c0.push(105);
    c0.push(111);
    c0.push(32);
    c0.push(40);
    c0.push(104);
    c0.push(117);
    c0.push(110);
    c0.push(100);
    c0.push(114);
    c0.push(101);
    c0.push(100);
    c0.push(116);
    c0.push(104);
    proof {
        assert(c0@ =~= md_head_tail_0());
    }
    push_all(&mut v, &c0);
    let mut c1: Vec<u8> = Vec::new();
    c1.push(115);
    c1.push(41);
    c1.push(32);
    c1.push(124);
    c1.push(10);
    c1.push(124);
    c1.push(45);
    c1.push(45);
    c1.push(45);
    c1.push(45);
    c1.push(45);
    c1.push(45);
    c1.push(45);
    c1.push(45);
    c1.push(124);
    c1.push(45);
    c1.push(45);
    c1.push(45);
    c1.push(45);
    c1.push(45);
    c1.push(45);
    c1.push(45);
    c1.push(45);
    c1.push(124);
    c1.push(45);
    c1.push(45);
    c1.push(45);
    c1.push(45);
    proof {
        assert(c1@ =~= md_head_tail_1());
    }
    push_all(&mut v, &c1);
    proof {
        seq_assoc(Seq::<u8>::empty(), md_head_tail_0(), md_head_tail_1());
    }
    let mut c2: Vec<u8> = Vec::new();
    c2.push(45);
    c2.push(45);
    c2.push(45);
    c2.push(45);
    c2.push(124);
    c2.push(45);
    c2.push(45);
    c2.push(45);
    c2.push(45);
    c2.push(45);
    c2.push(45);
    c2.push(45);
    c2.push(45);
    c2.push(124);
    c2.push(45);
    c2.push(45);
    c2.push(45);
    c2.push(45);
    c2.push(45);
    c2.push(45);
    c2.push(45);
    c2.push(45);
    c2.push(124);
    c2.push(10);
    proof {
        assert(c2@ =~= md_head_tail_2());
    }
    push_all(&mut v, &c2);
    proof {
        seq_assoc(Seq::<u8>::empty(), md_head_tail_0() + md_head_tail_1(), md_head_tail_2());
    }
    proof {
        assert(Seq::<u8>::empty() + md_head_tail() =~= md_head_tail());
    }
    v
}

/// The display name of an engine, as a vector.
fn engine_name_vec(e: EngineType) -> (r: Vec<u8>)
    ensures
        r@ == engine_name(e),
{
    match e {
        EngineType::RocksDB => rocks_name_vec(),
        EngineType::Sled => sled_name_vec(),
    }
}

/// The display name of a metric, as a vector.
fn metric_name_vec(m: MetricKind) -> (r: Vec<u8>)
    ensures
        r@ == metric_name(m),
{
    match m {
        MetricKind::Throughput => m_throughput_vec(),
        MetricKind::WriteP99 => m_write_p99_vec(),
        MetricKind::ReadP99 => m_read_p99_vec(),
        MetricKind::ScanP99 => m_scan_p99_vec(),
        MetricKind::WriteAmplification => m_write_amplification_vec(),
        MetricKind::SpaceAmplification => m_space_amplification_vec(),
    }
}

/// Appends one CSV row to `out`.
#[verifier::rlimit(100)]
fn csv_line_exec(out: &mut Vec<u8>, r: &BenchmarkResult)
    ensures
        final(out)@ == old(out)@ + csv_line(*r),
{
    proof {
        reveal(csv_line);
    }
    let nm = engine_name_vec(r.engine_type);
    push_all(out, &nm);
    out.push(44);
    proof {
        assert(old(out)@ + (engine_name(r.engine_type)) + csv_sep() =~= (old(out)@ + (engine_name(r.engine_type))).push(44u8));
    }
    proof {
        seq_assoc(old(out)@, engine_name(r.engine_type), csv_sep());
    }
    push_dec(out, r.throughput);
    proof {
        seq_assoc(old(out)@, engine_name(r.engine_type) + csv_sep(), dec_bytes(r.throughput as nat));
    }
    out.push(44);
    proof {
        assert(old(out)@ + (engine_name(r.engine_type) + csv_sep() + dec_bytes(r.throughput as nat)) + csv_sep() =~= (old(out)@ + (engine_name(r.engine_type) + csv_sep() + dec_bytes(r.throughput as nat))).push(44u8));
    }
    proof {
        seq_assoc(old(out)@, engine_name(r.engine_type) + csv_sep() + dec_bytes(r.throughput as nat), csv_sep());
    }
    push_dec(out, r.latencies.write_p50);
    proof {
        seq_assoc(old(out)@, engine_name(r.engine_type) + csv_sep() + dec_bytes(r.throughput as nat) + csv_sep(), dec_bytes(r.latencies.write_p50 as nat));
    }
    out.push(44);
    proof {
        assert(old(out)@ + (engine_name(r.engine_type) + csv_sep() + dec_bytes(r.throughput as nat) + csv_sep() + dec_bytes(r.latencies.write_p50 as nat)) + csv_sep() =~= (old(out)@ + (engine_name(r.engine_type) + csv_sep() + dec_bytes(r.throughput as nat) + csv_sep() + dec_bytes(r.latencies.write_p50 as nat))).push(44u8));
    }
    proof {
        seq_assoc(old(out)@, engine_name(r.engine_type) + csv_sep() + dec_bytes(r.throughput as nat) + csv_sep() + dec_bytes(r.latencies.write_p50 as nat), csv_sep());
    }
    push_dec(out, r.latencies.write_p95);
    proof {
        seq_assoc(old(out)@, engine_name(r.engine_type) + csv_sep() + dec_bytes(r.throughput as nat) + csv_sep() + dec_bytes(r.latencies.write_p50 as nat) + csv_sep(), dec_bytes(r.latencies.write_p95 as nat));
    }
    out.push(44);
    proof {
        assert(old(out)@ + (engine_name(r.engine_type) + csv_sep() + dec_bytes(r.throughput as nat) + csv_sep() + dec_bytes(r.latencies.write_p50 as nat) + csv_sep() + dec_bytes(r.latencies.write_p95 as nat)) + csv_sep() =~= (old(out)@ + (engine_name(r.engine_type) + csv_sep() + dec_bytes(r.throughput as nat) + csv_sep() + dec_bytes(r.latencies.write_p50 as nat) + csv_sep() + dec_bytes(r.latencies.write_p95 as nat))).push(44u8));
    }
    proof {
        seq_assoc(old(out)@, engine_name(r.engine_type) + csv_sep() + dec_bytes(r.throughput as nat) + csv_sep() + dec_bytes(r.latencies.write_p50 as nat) + csv_sep() + dec_bytes(r.latencies.write_p95 as nat), csv_sep());
    }
    push_dec(out, r.latencies.write_p99);
    proof {
        seq_assoc(old(out)@, engine_name(r.engine_type) + csv_sep() + dec_bytes(r.throughput as nat) + csv_sep() + dec_bytes(r.latencies.write_p50 as nat) + csv_sep() + dec_bytes(r.latencies.write_p95 as nat) + csv_sep(), dec_bytes(r.latencies.write_p99 as nat));
    }
    out.push(44);
    proof {
        assert(old(out)@ + (engine_name(r.engine_type) + csv_sep() + dec_bytes(r.throughput as nat) + csv_sep() + dec_bytes(r.latencies.write_p50 as nat) + csv_sep() + dec_bytes(r.latencies.write_p95 as nat) + csv_sep() + dec_bytes(r.latencies.write_p99 as nat)) + csv_sep() =~= (old(out)@ + (engine_name(r.engine_type) + csv_sep() + dec_bytes(r.throughput as nat) + csv_sep() + dec_bytes(r.latencies.write_p50 as nat) + csv_sep() + dec_bytes(r.latencies.write_p95 as nat) + csv_sep() + dec_bytes(r.latencies.write_p99 as nat))).push(44u8));
    }
    proof {
        seq_assoc(old(out)@, engine_name(r.engine_type) + csv_sep() + dec_bytes(r.throughput as nat) + csv_sep() + dec_bytes(r.latencies.write_p50 as nat) + csv_sep() + dec_bytes(r.latencies.write_p95 as nat) + csv_sep() + dec_bytes(r.latencies.write_p99 as nat), csv_sep());
    }
    push_dec(out, r.latencies.write_p999);
    proof {
        seq_assoc(old(out)@, engine_name(r.engine_type) + csv_sep() + dec_bytes(r.throughput as nat) + csv_sep() + dec_bytes(r.latencies.write_p50 as nat) + csv_sep() + dec_bytes(r.latencies.write_p95 as nat) + csv_sep() + dec_bytes(r.latencies.write_p99 as nat) + csv_sep(), dec_bytes(r.latencies.write_p999 as nat));
    }
    out.push(44);
    proof {
        assert(old(out)@ + (engine_name(r.engine_type) + csv_sep() + dec_bytes(r.throughput as nat) + csv_sep() + dec_bytes(r.latencies.write_p50 as nat) + csv_sep() + dec_bytes(r.latencies.write_p95 as nat) + csv_sep() + dec_bytes(r.latencies.write_p99 as nat) + csv_sep() + dec_bytes(r.latencies.write_p999 as nat)) + csv_sep() =~= (old(out)@ + (engine_name(r.engine_type) + csv_sep() + dec_bytes(r.throughput as nat) + csv_sep() + dec_bytes(r.latencies.write_p50 as nat) + csv_sep() + dec_bytes(r.latencies.write_p95 as nat) + csv_sep() + dec_bytes(r.latencies.write_p99 as nat) + csv_sep() + dec_bytes(r.latencies.write_p999 as nat))).push(44u8));
    }
    proof {
        seq_assoc(old(out)@, engine_name(r.engine_type) + csv_sep() + dec_bytes(r.throughput as nat) + csv_sep() + dec_bytes(r.latencies.write_p50 as nat) + csv_sep() + dec_bytes(r.latencies.write_p95 as nat) + csv_sep() + dec_bytes(r.latencies.write_p99 as nat) + csv_sep() + dec_bytes(r.latencies.write_p999 as nat), csv_sep());
    }
    push_dec(out, r.latencies.read_p50);
    proof {
        seq_assoc(old(out)@, engine_name(r.engine_type) + csv_sep() + dec_bytes(r.throughput as nat) + csv_sep() + dec_bytes(r.latencies.write_p50 as nat) + csv_sep() + dec_bytes(r.latencies.write_p95 as nat) + csv_sep() + dec_bytes(r.latencies.write_p99 as nat) + csv_sep() + dec_bytes(r.latencies.write_p999 as nat) + csv_sep(), dec_bytes(r.latencies.read_p50 as nat));
    }
    out.push(44);
    proof {
        assert(old(out)@ + (engine_name(r.engine_type) + csv_sep() + dec_bytes(r.throughput as nat) + csv_sep() + dec_bytes(r.latencies.write_p50 as nat) + csv_sep() + dec_bytes(r.latencies.write_p95 as nat) + csv_sep() + dec_bytes(r.latencies.write_p99 as nat) + csv_sep() + dec_bytes(r.latencies.write_p999 as nat) + csv_sep() + dec_bytes(r.latencies.read_p50 as nat)) + csv_sep() =~= (old(out)@ + (engine_name(r.engine_type) + csv_sep() + dec_bytes(r.throughput as nat) + csv_sep() + dec_bytes(r.latencies.write_p50 as nat) + csv_sep() + dec_bytes(r.latencies.write_p95 as nat) + csv_sep() + dec_bytes(r.latencies.write_p99 as nat) + csv_sep() + dec_bytes(r.latencies.write_p999 as nat) + csv_sep() + dec_bytes(r.latencies.read_p50 as nat))).push(44u8));
    }
    proof {
        seq_assoc(old(out)@, engine_name(r.engine_type) + csv_sep() + dec_bytes(r.throughput as nat) + csv_sep() + dec_bytes(r.latencies.write_p50 as nat) + csv_sep() + dec_bytes(r.latencies.write_p95 as nat) + csv_sep() + dec_bytes(r.latencies.write_p99 as nat) + csv_sep() + dec_bytes(r.latencies.write_p999 as nat) + csv_sep() + dec_bytes(r.latencies.read_p50 as nat), csv_sep());
    }
    push_dec(out, r.latencies.read_p95);
    proof {
        seq_assoc(old(out)@, engine_name(r.engine_type) + csv_sep() + dec_bytes(r.throughput as nat) + csv_sep() + dec_bytes(r.latencies.write_p50 as nat) + csv_sep() + dec_bytes(r.latencies.write_p95 as nat) + csv_sep() + dec_bytes(r.latencies.write_p99 as nat) + csv_sep() + dec_bytes(r.latencies.write_p999 as nat) + csv_sep() + dec_bytes(r.latencies.read_p50 as nat) + csv_sep(), dec_bytes(r.latencies.read_p95 as nat));
    }
    out.push(44);
    proof {
        assert(old(out)@ + (engine_name(r.engine_type) + csv_sep() + dec_bytes(r.throughput as nat) + csv_sep() + dec_bytes(r.latencies.write_p50 as nat) + csv_sep() + dec_bytes(r.latencies.write_p95 as nat) + csv_sep() + dec_bytes(r.latencies.write_p99 as nat) + csv_sep() + dec_bytes(r.latencies.write_p999 as nat) + csv_sep() + dec_bytes(r.latencies.read_p50 as nat) + csv_sep() + dec_bytes(r.latencies.read_p95 as nat)) + csv_sep() =~= (old(out)@ + (engine_name(r.engine_type) + csv_sep() + dec_bytes(r.throughput as nat) + csv_sep() + dec_bytes(r.latencies.write_p50 as nat) + csv_sep() + dec_bytes(r.latencies.write_p95 as nat) + csv_sep() + dec_bytes(r.latencies.write_p99 as nat) + csv_sep() + dec_bytes(r.latencies.write_p999 as nat) + csv_sep() + dec_bytes(r.latencies.read_p50 as nat) + csv_sep() + dec_bytes(r.latencies.read_p95 as nat))).push(44u8));
    }
    proof {
        seq_assoc(old(out)@, engine_name(r.engine_type) + csv_sep() + dec_bytes(r.throughput as nat) + csv_sep() + dec_bytes(r.latencies.write_p50 as nat) + csv_sep() + dec_bytes(r.latencies.write_p95 as nat) + csv_sep() + dec_bytes(r.latencies.write_p99 as nat) + csv_sep() + dec_bytes(r.latencies.write_p999 as nat) + csv_sep() + dec_bytes(r.latencies.read_p50 as nat) + csv_sep() + dec_bytes(r.latencies.read_p95 as nat), csv_sep());
    }
    push_dec(out, r.latencies.read_p99);
    proof {
        seq_assoc(old(out)@, engine_name(r.engine_type) + csv_sep() + dec_bytes(r.throughput as nat) + csv_sep() + dec_bytes(r.latencies.write_p50 as nat) + csv_sep() + dec_bytes(r.latencies.write_p95 as nat) + csv_sep() + dec_bytes(r.latencies.write_p99 as nat) + csv_sep() + dec_bytes(r.latencies.write_p999 as nat) + csv_sep() + dec_bytes(r.latencies.read_p50 as nat) + csv_sep() + dec_bytes(r.latencies.read_p95 as nat) + csv_sep(), dec_bytes(r.latencies.read_p99 as nat));
    }
    out.push(44);
    proof {
        assert(old(out)@ + (engine_name(r.engine_type) + csv_sep() + dec_bytes(r.throughput as nat) + csv_sep() + dec_bytes(r.latencies.write_p50 as nat) + csv_sep() + dec_bytes(r.latencies.write_p95 as nat) + csv_sep() + dec_bytes(r.latencies.write_p99 as nat) + csv_sep() + dec_bytes(r.latencies.write_p999 as nat) + csv_sep() + dec_bytes(r.latencies.read_p50 as nat) + csv_sep() + dec_bytes(r.latencies.read_p95 as nat) + csv_sep() + dec_bytes(r.latencies.read_p99 as nat)) + csv_sep() =~= (old(out)@ + (engine_name(r.engine_type) + csv_sep() + dec_bytes(r.throughput as nat) + csv_sep() + dec_bytes(r.latencies.write_p50 as nat) + csv_sep() + dec_bytes(r.latencies.write_p95 as nat) + csv_sep() + dec_bytes(r.latencies.write_p99 as nat) + csv_sep() + dec_bytes(r.latencies.write_p999 as nat) + csv_sep() + dec_bytes(r.latencies.read_p50 as nat) + csv_sep() + dec_bytes(r.latencies.read_p95 as nat) + csv_sep() + dec_bytes(r.latencies.read_p99 as nat))).push(44u8));
    }
    proof {
        seq_assoc(old(out)@, engine_name(r.engine_type) + csv_sep() + dec_bytes(r.throughput as nat) + csv_sep() + dec_bytes(r.latencies.write_p50 as nat) + csv_sep() + dec_bytes(r.latencies.write_p95 as nat) + csv_sep() + dec_bytes(r.latencies.write_p99 as nat) + csv_sep() + dec_bytes(r.latencies.write_p999 as nat) + csv_sep() + dec_bytes(r.latencies.read_p50 as nat) + csv_sep() + dec_bytes(r.latencies.read_p95 as nat) + csv_sep() + dec_bytes(r.latencies.read_p99 as nat), csv_sep());
    }
    push_dec(out, r.latencies.read_p999);
    proof {
        seq_assoc(old(out)@, engine_name(r.engine_type) + csv_sep() + dec_bytes(r.throughput as nat) + csv_sep() + dec_bytes(r.latencies.write_p50 as nat) + csv_sep() + dec_bytes(r.latencies.write_p95 as nat) + csv_sep() + dec_bytes(r.latencies.write_p99 as nat) + csv_sep() + dec_bytes(r.latencies.write_p999 as nat) + csv_sep() + dec_bytes(r.latencies.read_p50 as nat) + csv_sep() + dec_bytes(r.latencies.read_p95 as nat) + csv_sep() + dec_bytes(r.latencies.read_p99 as nat) + csv_sep(), dec_bytes(r.latencies.read_p999 as nat));
    }
    out.push(44);
    proof {
        assert(old(out)@ + (engine_name(r.engine_type) + csv_sep() + dec_bytes(r.throughput as nat) + csv_sep() + dec_bytes(r.latencies.write_p50 as nat) + csv_sep() + dec_bytes(r.latencies.write_p95 as nat) + csv_sep() + dec_bytes(r.latencies.write_p99 as nat) + csv_sep() + dec_bytes(r.latencies.write_p999 as nat) + csv_sep() + dec_bytes(r.latencies.read_p50 as nat) + csv_sep() + dec_bytes(r.latencies.read_p95 as nat) + csv_sep() + dec_bytes(r.latencies.read_p99 as nat) + csv_sep() + dec_bytes(r.latencies.read_p999 as nat)) + csv_sep() =~= (old(out)@ + (engine_name(r.engine_type) + csv_sep() + dec_bytes(r.throughput as nat) + csv_sep() + dec_bytes(r.latencies.write_p50 as nat) + csv_sep() + dec_bytes(r.latencies.write_p95 as nat) + csv_sep() + dec_bytes(r.latencies.write_p99 as nat) + csv_sep() + dec_bytes(r.latencies.write_p999 as nat) + csv_sep() + dec_bytes(r.latencies.read_p50 as nat) + csv_sep() + dec_bytes(r.latencies.read_p95 as nat) + csv_sep() + dec_bytes(r.latencies.read_p99 as nat) + csv_sep() + dec_bytes(r.latencies.read_p999 as nat))).push(44u8));
    }
    proof {
        seq_assoc(old(out)@, engine_name(r.engine_type) + csv_sep() + dec_bytes(r.throughput as nat) + csv_sep() + dec_bytes(r.latencies.write_p50 as nat) + csv_sep() + dec_bytes(r.latencies.write_p95 as nat) + csv_sep() + dec_bytes(r.latencies.write_p99 as nat) + csv_sep() + dec_bytes(r.latencies.write_p999 as nat) + csv_sep() + dec_bytes(r.latencies.read_p50 as nat) + csv_sep() + dec_bytes(r.latencies.read_p95 as nat) + csv_sep() + dec_bytes(r.latencies.read_p99 as nat) + csv_sep() + dec_bytes(r.latencies.read_p999 as nat), csv_sep());
    }
    push_dec(out, r.scan_p99);
    proof {
        seq_assoc(old(out)@, engine_name(r.engine_type) + csv_sep() + dec_bytes(r.throughput as nat) + csv_sep() + dec_bytes(r.latencies.write_p50 as nat) + csv_sep() + dec_bytes(r.latencies.write_p95 as nat) + csv_sep() + dec_bytes(r.latencies.write_p99 as nat) + csv_sep() + dec_bytes(r.latencies.write_p999 as nat) + csv_sep() + dec_bytes(r.latencies.read_p50 as nat) + csv_sep() + dec_bytes(r.latencies.read_p95 as nat) + csv_sep() + dec_bytes(r.latencies.read_p99 as nat) + csv_sep() + dec_bytes(r.latencies.read_p999 as nat) + csv_sep(), dec_bytes(r.scan_p99 as nat));
    }
    out.push(44);
    proof {
        assert(old(out)@ + (engine_name(r.engine_type) + csv_sep() + dec_bytes(r.throughput as nat) + csv_sep() + dec_bytes(r.latencies.write_p50 as nat) + csv_sep() + dec_bytes(r.latencies.write_p95 as nat) + csv_sep() + dec_bytes(r.latencies.write_p99 as nat) + csv_sep() + dec_bytes(r.latencies.write_p999 as nat) + csv_sep() + dec_bytes(r.latencies.read_p50 as nat) + csv_sep() + dec_bytes(r.latencies.read_p95 as nat) + csv_sep() + dec_bytes(r.latencies.read_p99 as nat) + csv_sep() + dec_bytes(r.latencies.read_p999 as nat) + csv_sep() + dec_bytes(r.scan_p99 as nat)) + csv_sep() =~= (old(out)@ + (engine_name(r.engine_type) + csv_sep() + dec_bytes(r.throughput as nat) + csv_sep() + dec_bytes(r.latencies.write_p50 as nat) + csv_sep() + dec_bytes(r.latencies.write_p95 as nat) + csv_sep() + dec_bytes(r.latencies.write_p99 as nat) + csv_sep() + dec_bytes(r.latencies.write_p999 as nat) + csv_sep() + dec_bytes(r.latencies.read_p50 as nat) + csv_sep() + dec_bytes(r.latencies.read_p95 as nat) + csv_sep() + dec_bytes(r.latencies.read_p99 as nat) + csv_sep() + dec_bytes(r.latencies.read_p999 as nat) + csv_sep() + dec_bytes(r.scan_p99 as nat))).push(44u8));
    }
    proof {
        seq_assoc(old(out)@, engine_name(r.engine_type) + csv_sep() + dec_bytes(r.throughput as nat) + csv_sep() + dec_bytes(r.latencies.write_p50 as nat) + csv_sep() + dec_bytes(r.latencies.write_p95 as nat) + csv_sep() + dec_bytes(r.latencies.write_p99 as nat) + csv_sep() + dec_bytes(r.latencies.write_p999 as nat) + csv_sep() + dec_bytes(r.latencies.read_p50 as nat) + csv_sep() + dec_bytes(r.latencies.read_p95 as nat) + csv_sep() + dec_bytes(r.latencies.read_p99 as nat) + csv_sep() + dec_bytes(r.latencies.read_p999 as nat) + csv_sep() + dec_bytes(r.scan_p99 as nat), csv_sep());
    }
    push_dec(out, r.write_amplification);
    proof {
        seq_assoc(old(out)@, engine_name(r.engine_type) + csv_sep() + dec_bytes(r.throughput as nat) + csv_sep() + dec_bytes(r.latencies.write_p50 as nat) + csv_sep() + dec_bytes(r.latencies.write_p95 as nat) + csv_sep() + dec_bytes(r.latencies.write_p99 as nat) + csv_sep() + dec_bytes(r.latencies.write_p999 as nat) + csv_sep() + dec_bytes(r.latencies.read_p50 as nat) + csv_sep() + dec_bytes(r.latencies.read_p95 as nat) + csv_sep() + dec_bytes(r.latencies.read_p99 as nat) + csv_sep() + dec_bytes(r.latencies.read_p999 as nat) + csv_sep() + dec_bytes(r.scan_p99 as nat) + csv_sep(), dec_bytes(r.write_amplification as nat));
    }
    out.push(44);
    proof {
        assert(old(out)@ + (engine_name(r.engine_type) + csv_sep() + dec_bytes(r.throughput as nat) + csv_sep() + dec_bytes(r.latencies.write_p50 as nat) + csv_sep() + dec_bytes(r.latencies.write_p95 as nat) + csv_sep() + dec_bytes(r.latencies.write_p99 as nat) + csv_sep() + dec_bytes(r.latencies.write_p999 as nat) + csv_sep() + dec_bytes(r.latencies.read_p50 as nat) + csv_sep() + dec_bytes(r.latencies.read_p95 as nat) + csv_sep() + dec_bytes(r.latencies.read_p99 as nat) + csv_sep() + dec_bytes(r.latencies.read_p999 as nat) + csv_sep() + dec_bytes(r.scan_p99 as nat) + csv_sep() + dec_bytes(r.write_amplification as nat)) + csv_sep() =~= (old(out)@ + (engine_name(r.engine_type) + csv_sep() + dec_bytes(r.throughput as nat) + csv_sep() + dec_bytes(r.latencies.write_p50 as nat) + csv_sep() + dec_bytes(r.latencies.write_p95 as nat) + csv_sep() + dec_bytes(r.latencies.write_p99 as nat) + csv_sep() + dec_bytes(r.latencies.write_p999 as nat) + csv_sep() + dec_bytes(r.latencies.read_p50 as nat) + csv_sep() + dec_bytes(r.latencies.read_p95 as nat) + csv_sep() + dec_bytes(r.latencies.read_p99 as nat) + csv_sep() + dec_bytes(r.latencies.read_p999 as nat) + csv_sep() + dec_bytes(r.scan_p99 as nat) + csv_sep() + dec_bytes(r.write_amplification as nat))).push(44u8));
    }
    proof {
        seq_assoc(old(out)@, engine_name(r.engine_type) + csv_sep() + dec_bytes(r.throughput as nat) + csv_sep() + dec_bytes(r.latencies.write_p50 as nat) + csv_sep() + dec_bytes(r.latencies.write_p95 as nat) + csv_sep() + dec_bytes(r.latencies.write_p99 as nat) + csv_sep() + dec_bytes(r.latencies.write_p999 as nat) + csv_sep() + dec_bytes(r.latencies.read_p50 as nat) + csv_sep() + dec_bytes(r.latencies.read_p95 as nat) + csv_sep() + dec_bytes(r.latencies.read_p99 as nat) + csv_sep() + dec_bytes(r.latencies.read_p999 as nat) + csv_sep() + dec_bytes(r.scan_p99 as nat) + csv_sep() + dec_bytes(r.write_amplification as nat), csv_sep());
    }
    push_dec(out, r.space_amplification);
    proof {
        seq_assoc(old(out)@, engine_name(r.engine_type) + csv_sep() + dec_bytes(r.throughput as nat) + csv_sep() + dec_bytes(r.latencies.write_p50 as nat) + csv_sep() + dec_bytes(r.latencies.write_p95 as nat) + csv_sep() + dec_bytes(r.latencies.write_p99 as nat) + csv_sep() + dec_bytes(r.latencies.write_p999 as nat) + csv_sep() + dec_bytes(r.latencies.read_p50 as nat) + csv_sep() + dec_bytes(r.latencies.read_p95 as nat) + csv_sep() + dec_bytes(r.latencies.read_p99 as nat) + csv_sep() + dec_bytes(r.latencies.read_p999 as nat) + csv_sep() + dec_bytes(r.scan_p99 as nat) + csv_sep() + dec_bytes(r.write_amplification as nat) + csv_sep(), dec_bytes(r.space_amplification as nat));
    }
    out.push(10);
    proof {
        assert(old(out)@ + (engine_name(r.engine_type) + csv_sep() + dec_bytes(r.throughput as nat) + csv_sep() + dec_bytes(r.latencies.write_p50 as nat) + csv_sep() + dec_bytes(r.latencies.write_p95 as nat) + csv_sep() + dec_bytes(r.latencies.write_p99 as nat) + csv_sep() + dec_bytes(r.latencies.write_p999 as nat) + csv_sep() + dec_bytes(r.latencies.read_p50 as nat) + csv_sep() + dec_bytes(r.latencies.read_p95 as nat) + csv_sep() + dec_bytes(r.latencies.read_p99 as nat) + csv_sep() + dec_bytes(r.latencies.read_p999 as nat) + csv_sep() + dec_bytes(r.scan_p99 as nat) + csv_sep() + dec_bytes(r.write_amplification as nat) + csv_sep() + dec_bytes(r.space_amplification as nat)) + line_break() =~= (old(out)@ + (engine_name(r.engine_type) + csv_sep() + dec_bytes(r.throughput as nat) + csv_sep() + dec_bytes(r.latencies.write_p50 as nat) + csv_sep() + dec_bytes(r.latencies.write_p95 as nat) + csv_sep() + dec_bytes(r.latencies.write_p99 as nat) + csv_sep() + dec_bytes(r.latencies.write_p999 as nat) + csv_sep() + dec_bytes(r.latencies.read_p50 as nat) + csv_sep() + dec_bytes(r.latencies.read_p95 as nat) + csv_sep() + dec_bytes(r.latencies.read_p99 as nat) + csv_sep() + dec_bytes(r.latencies.read_p999 as nat) + csv_sep() + dec_bytes(r.scan_p99 as nat) + csv_sep() + dec_bytes(r.write_amplification as nat) + csv_sep() + dec_bytes(r.space_amplification as nat))).push(10u8));
    }
    proof {
        seq_assoc(old(out)@, engine_name(r.engine_type) + csv_sep() + dec_bytes(r.throughput as nat) + csv_sep() + dec_bytes(r.latencies.write_p50 as nat) + csv_sep() + dec_bytes(r.latencies.write_p95 as nat) + csv_sep() + dec_bytes(r.latencies.write_p99 as nat) + csv_sep() + dec_bytes(r.latencies.write_p999 as nat) + csv_sep() + dec_bytes(r.latencies.read_p50 as nat) + csv_sep() + dec_bytes(r.latencies.read_p95 as nat) + csv_sep() + dec_bytes(r.latencies.read_p99 as nat) + csv_sep() + dec_bytes(r.latencies.read_p999 as nat) + csv_sep() + dec_bytes(r.scan_p99 as nat) + csv_sep() + dec_bytes(r.write_amplification as nat) + csv_sep() + dec_bytes(r.space_amplification as nat), line_break());
    }
}

/// Appends one markdown row to `out`.
#[verifier::rlimit(100)]
fn md_line_exec(out: &mut Vec<u8>, row: &MetricRow)
    ensures
        final(out)@ == old(out)@ + md_line(*row),
{
    proof {
        reveal(md_line);
    }
    let t = md_open_vec();
    push_all(out, &t);
    let t = metric_name_vec(row.metric);
    push_all(out, &t);
    proof {
        seq_assoc(old(out)@, md_open(), metric_name(row.metric));
    }
    let t = md_mid_vec();
    push_all(out, &t);
    proof {
        seq_assoc(old(out)@, md_open() + metric_name(row.metric), md_mid());
    }
    push_dec(out, row.value_a);
    proof {
        seq_assoc(old(out)@, md_open() + metric_name(row.metric) + md_mid(), dec_bytes(row.value_a as nat));
    }
    let t = md_mid_vec();
    push_all(out, &t);
    proof {
        seq_assoc(old(out)@, md_open() + metric_name(row.metric) + md_mid() + dec_bytes(row.value_a as nat), md_mid());
    }
    push_dec(out, row.value_b);
    proof {
        seq_assoc(old(out)@, md_open() + metric_name(row.metric) + md_mid() + dec_bytes(row.value_a as nat) + md_mid(), dec_bytes(row.value_b as nat));
    }
    let t = md_mid_vec();
    push_all(out, &t);
    proof {
        seq_assoc(old(out)@, md_open() + metric_name(row.metric) + md_mid() + dec_bytes(row.value_a as nat) + md_mid() + dec_bytes(row.value_b as nat), md_mid());
    }
    let t = engine_name_vec(row.winner);
    push_all(out, &t);
    proof {
        seq_assoc(old(out)@, md_open() + metric_name(row.metric) + md_mid() + dec_bytes(row.value_a as nat) + md_mid() + dec_bytes(row.value_b as nat) + md_mid(), engine_name(row.winner));
    }
    let t = md_mid_vec();
    push_all(out, &t);
    proof {
        seq_assoc(old(out)@, md_open() + metric_name(row.metric) + md_mid() + dec_bytes(row.value_a as nat) + md_mid() + dec_bytes(row.value_b as nat) + md_mid() + engine_name(row.winner), md_mid());
    }
    push_dec(out, row.ratio_centi);
    proof {
        seq_assoc(old(out)@, md_open() + metric_name(row.metric) + md_mid() + dec_bytes(row.value_a as nat) + md_mid() + dec_bytes(row.value_b as nat) + md_mid() + engine_name(row.winner) + md_mid(), dec_bytes(row.ratio_centi as nat));
    }
    let t = md_end_vec();
    push_all(out, &t);
    proof {
        seq_assoc(old(out)@, md_open() + metric_name(row.metric) + md_mid() + dec_bytes(row.value_a as nat) + md_mid() + dec_bytes(row.value_b as nat) + md_mid() + engine_name(row.winner) + md_mid() + dec_bytes(row.ratio_centi as nat), md_end());
    }
    out.push(10);
    proof {
        assert(old(out)@ + (md_open() + metric_name(row.metric) + md_mid() + dec_bytes(row.value_a as nat) + md_mid() + dec_bytes(row.value_b as nat) + md_mid() + engine_name(row.winner) + md_mid() + dec_bytes(row.ratio_centi as nat) + md_end()) + line_break() =~= (old(out)@ + (md_open() + metric_name(row.metric) + md_mid() + dec_bytes(row.value_a as nat) + md_mid() + dec_bytes(row.value_b as nat) + md_mid() + engine_name(row.winner) + md_mid() + dec_bytes(row.ratio_centi as nat) + md_end())).push(10u8));
    }
    proof {
        seq_assoc(old(out)@, md_open() + metric_name(row.metric) + md_mid() + dec_bytes(row.value_a as nat) + md_mid() + dec_bytes(row.value_b as nat) + md_mid() + engine_name(row.winner) + md_mid() + dec_bytes(row.ratio_centi as nat) + md_end(), line_break());
    }
}

/// Appends one result's detail section to `out`.
#[verifier::rlimit(100)]
fn md_detail_exec(out: &mut Vec<u8>, r: &BenchmarkResult)
    ensures
        final(out)@ == old(out)@ + md_detail(*r),
{
    proof {
        reveal(md_detail);
    }
    let t = md_detail_head_vec();
    push_all(out, &t);
    let t = engine_name_vec(r.engine_type);
    push_all(out, &t);
    proof {
        seq_assoc(old(out)@, md_detail_head(), engine_name(r.engine_type));
    }
    out.push(10);
    proof {
        assert(old(out)@ + (md_detail_head() + engine_name(r.engine_type)) + line_break() =~= (old(out)@ + (md_detail_head() + engine_name(r.engine_type))).push(10u8));
    }
    proof {
        seq_assoc(old(out)@, md_detail_head() + engine_name(r.engine_type), line_break());
    }
    let t = md_detail_throughput_vec();
    push_all(out, &t);
    proof {
        seq_assoc(old(out)@, md_detail_head() + engine_name(r.engine_type) + line_break(), md_detail_throughput());
    }
    push_dec(out, r.throughput);
    proof {
        seq_assoc(old(out)@, md_detail_head() + engine_name(r.engine_type) + line_break() + md_detail_throughput(), dec_bytes(r.throughput as nat));
    }
    out.push(10);
    proof {
        assert(old(out)@ + (md_detail_head() + engine_name(r.engine_type) + line_break() + md_detail_throughput() + dec_bytes(r.throughput as nat)) + line_break() =~= (old(out)@ + (md_detail_head() + engine_name(r.engine_type) + line_break() + md_detail_throughput() + dec_bytes(r.throughput as nat))).push(10u8));
    }
    proof {
        seq_assoc(old(out)@, md_detail_head() + engine_name(r.engine_type) + line_break() + md_detail_throughput() + dec_bytes(r.throughput as nat), line_break());
    }
    let t = md_detail_operations_vec();
    push_all(out, &t);
    proof {
        seq_assoc(old(out)@, md_detail_head() + engine_name(r.engine_type) + line_break() + md_detail_throughput() + dec_bytes(r.throughput as nat) + line_break(), md_detail_operations());
    }
    push_dec(out, r.operations);
    proof {
        seq_assoc(old(out)@, md_detail_head() + engine_name(r.engine_type) + line_break() + md_detail_throughput() + dec_bytes(r.throughput as nat) + line_break() + md_detail_operations(), dec_bytes(r.operations as nat));
    }
    out.push(10);
    proof {
        assert(old(out)@ + (md_detail_head() + engine_name(r.engine_type) + line_break() + md_detail_throughput() + dec_bytes(r.throughput as nat) + line_break() + md_detail_operations() + dec_bytes(r.operations as nat)) + line_break() =~= (old(out)@ + (md_detail_head() + engine_name(r.engine_type) + line_break() + md_detail_throughput() + dec_bytes(r.throughput as nat) + line_break() + md_detail_operations() + dec_bytes(r.operations as nat))).push(10u8));
    }
    proof {
        seq_assoc(old(out)@, md_detail_head() + engine_name(r.engine_type) + line_break() + md_detail_throughput() + dec_bytes(r.throughput as nat) + line_break() + md_detail_operations() + dec_bytes(r.operations as nat), line_break());
    }
    let t = md_detail_duration_micros_vec();
    push_all(out, &t);
    proof {
        seq_assoc(old(out)@, md_detail_head() + engine_name(r.engine_type) + line_break() + md_detail_throughput() + dec_bytes(r.throughput as nat) + line_break() + md_detail_operations() + dec_bytes(r.operations as nat) + line_break(), md_detail_duration_micros());
    }
    push_dec(out, r.duration_micros);
    proof {
        seq_assoc(old(out)@, md_detail_head() + engine_name(r.engine_type) + line_break() + md_detail_throughput() + dec_bytes(r.throughput as nat) + line_break() + md_detail_operations() + dec_bytes(r.operations as nat) + line_break() + md_detail_duration_micros(), dec_bytes(r.duration_micros as nat));
    }
    out.push(10);
    proof {
        assert(old(out)@ + (md_detail_head() + engine_name(r.engine_type) + line_break() + md_detail_throughput() + dec_bytes(r.throughput as nat) + line_break() + md_detail_operations() + dec_bytes(r.operations as nat) + line_break() + md_detail_duration_micros() + dec_bytes(r.duration_micros as nat)) + line_break() =~= (old(out)@ + (md_detail_head() + engine_name(r.engine_type) + line_break() + md_detail_throughput() + dec_bytes(r.throughput as nat) + line_break() + md_detail_operations() + dec_bytes(r.operations as nat) + line_break() + md_detail_duration_micros() + dec_bytes(r.duration_micros as nat))).push(10u8));
    }
    proof {
        seq_assoc(old(out)@, md_detail_head() + engine_name(r.engine_type) + line_break() + md_detail_throughput() + dec_bytes(r.throughput as nat) + line_break() + md_detail_operations() + dec_bytes(r.operations as nat) + line_break() + md_detail_duration_micros() + dec_bytes(r.duration_micros as nat), line_break());
    }
    let t = md_detail_write_p50_vec();
    push_all(out, &t);
    proof {
        seq_assoc(old(out)@, md_detail_head() + engine_name(r.engine_type) + line_break() + md_detail_throughput() + dec_bytes(r.throughput as nat) + line_break() + md_detail_operations() + dec_bytes(r.operations as nat) + line_break() + md_detail_duration_micros() + dec_bytes(r.duration_micros as nat) + line_break(), md_detail_write_p50());
    }
    push_dec(out, r.latencies.write_p50);
    proof {
        seq_assoc(old(out)@, md_detail_head() + engine_name(r.engine_type) + line_break() + md_detail_throughput() + dec_bytes(r.throughput as nat) + line_break() + md_detail_operations() + dec_bytes(r.operations as nat) + line_break() + md_detail_duration_micros() + dec_bytes(r.duration_micros as nat) + line_break() + md_detail_write_p50(), dec_bytes(r.latencies.write_p50 as nat));
    }
    out.push(10);
    proof {
        assert(old(out)@ + (md_detail_head() + engine_name(r.engine_type) + line_break() + md_detail_throughput() + dec_bytes(r.throughput as nat) + line_break() + md_detail_operations() + dec_bytes(r.operations as nat) + line_break() + md_detail_duration_micros() + dec_bytes(r.duration_micros as nat) + line_break() + md_detail_write_p50() + dec_bytes(r.latencies.write_p50 as nat)) + line_break() =~= (old(out)@ + (md_detail_head() + engine_name(r.engine_type) + line_break() + md_detail_throughput() + dec_bytes(r.throughput as nat) + line_break() + md_detail_operations() + dec_bytes(r.operations as nat) + line_break() + md_detail_duration_micros() + dec_bytes(r.duration_micros as nat) + line_break() + md_detail_write_p50() + dec_bytes(r.latencies.write_p50 as nat))).push(10u8));
    }
    proof {
        seq_assoc(old(out)@, md_detail_head() + engine_name(r.engine_type) + line_break() + md_detail_throughput() + dec_bytes(r.throughput as nat) + line_break() + md_detail_operations() + dec_bytes(r.operations as nat) + line_break() + md_detail_duration_micros() + dec_bytes(r.duration_micros as nat) + line_break() + md_detail_write_p50() + dec_bytes(r.latencies.write_p50 as nat), line_break());
    }
    let t = md_detail_write_p95_vec();
    push_all(out, &t);
    proof {
        seq_assoc(old(out)@, md_detail_head() + engine_name(r.engine_type) + line_break() + md_detail_throughput() + dec_bytes(r.throughput as nat) + line_break() + md_detail_operations() + dec_bytes(r.operations as nat) + line_break() + md_detail_duration_micros() + dec_bytes(r.duration_micros as nat) + line_break() + md_detail_write_p50() + dec_bytes(r.latencies.write_p50 as nat) + line_break(), md_detail_write_p95());
    }
    push_dec(out, r.latencies.write_p95);
    proof {
        seq_assoc(old(out)@, md_detail_head() + engine_name(r.engine_type) + line_break() + md_detail_throughput() + dec_bytes(r.throughput as nat) + line_break() + md_detail_operations() + dec_bytes(r.operations as nat) + line_break() + md_detail_duration_micros() + dec_bytes(r.duration_micros as nat) + line_break() + md_detail_write_p50() + dec_bytes(r.latencies.write_p50 as nat) + line_break() + md_detail_write_p95(), dec_bytes(r.latencies.write_p95 as nat));
    }
    out.push(10);
    proof {
        assert(old(out)@ + (md_detail_head() + engine_name(r.engine_type) + line_break() + md_detail_throughput() + dec_bytes(r.throughput as nat) + line_break() + md_detail_operations() + dec_bytes(r.operations as nat) + line_break() + md_detail_duration_micros() + dec_bytes(r.duration_micros as nat) + line_break() + md_detail_write_p50() + dec_bytes(r.latencies.write_p50 as nat) + line_break() + md_detail_write_p95() + dec_bytes(r.latencies.write_p95 as nat)) + line_break() =~= (old(out)@ + (md_detail_head() + engine_name(r.engine_type) + line_break() + md_detail_throughput() + dec_bytes(r.throughput as nat) + line_break() + md_detail_operations() + dec_bytes(r.operations as nat) + line_break() + md_detail_duration_micros() + dec_bytes(r.duration_micros as nat) + line_break() + md_detail_write_p50() + dec_bytes(r.latencies.write_p50 as nat) + line_break() + md_detail_write_p95() + dec_bytes(r.latencies.write_p95 as nat))).push(10u8));
    }
    proof {
        seq_assoc(old(out)@, md_detail_head() + engine_name(r.engine_type) + line_break() + md_detail_throughput() + dec_bytes(r.throughput as nat) + line_break() + md_detail_operations() + dec_bytes(r.operations as nat) + line_break() + md_detail_duration_micros() + dec_bytes(r.duration_micros as nat) + line_break() + md_detail_write_p50() + dec_bytes(r.latencies.write_p50 as nat) + line_break() + md_detail_write_p95() + dec_bytes(r.latencies.write_p95 as nat), line_break());
    }
    let t = md_detail_write_p99_vec();
    push_all(out, &t);
    proof {
        seq_assoc(old(out)@, md_detail_head() + engine_name(r.engine_type) + line_break() + md_detail_throughput() + dec_bytes(r.throughput as nat) + line_break() + md_detail_operations() + dec_bytes(r.operations as nat) + line_break() + md_detail_duration_micros() + dec_bytes(r.duration_micros as nat) + line_break() + md_detail_write_p50() + dec_bytes(r.latencies.write_p50 as nat) + line_break() + md_detail_write_p95() + dec_bytes(r.latencies.write_p95 as nat) + line_break(), md_detail_write_p99());
    }
    push_dec(out, r.latencies.write_p99);
    proof {
        seq_assoc(old(out)@, md_detail_head() + engine_name(r.engine_type) + line_break() + md_detail_throughput() + dec_bytes(r.throughput as nat) + line_break() + md_detail_operations() + dec_bytes(r.operations as nat) + line_break() + md_detail_duration_micros() + dec_bytes(r.duration_micros as nat) + line_break() + md_detail_write_p50() + dec_bytes(r.latencies.write_p50 as nat) + line_break() + md_detail_write_p95() + dec_bytes(r.latencies.write_p95 as nat) + line_break() + md_detail_write_p99(), dec_bytes(r.latencies.write_p99 as nat));
    }
    out.push(10);
    proof {
        assert(old(out)@ + (md_detail_head() + engine_name(r.engine_type) + line_break() + md_detail_throughput() + dec_bytes(r.throughput as nat) + line_break() + md_detail_operations() + dec_bytes(r.operations as nat) + line_break() + md_detail_duration_micros() + dec_bytes(r.duration_micros as nat) + line_break() + md_detail_write_p50() + dec_bytes(r.latencies.write_p50 as nat) + line_break() + md_detail_write_p95() + dec_bytes(r.latencies.write_p95 as nat) + line_break() + md_detail_write_p99() + dec_bytes(r.latencies.write_p99 as nat)) + line_break() =~= (old(out)@ + (md_detail_head() + engine_name(r.engine_type) + line_break() + md_detail_throughput() + dec_bytes(r.throughput as nat) + line_break() + md_detail_operations() + dec_bytes(r.operations as nat) + line_break() + md_detail_duration_micros() + dec_bytes(r.duration_micros as nat) + line_break() + md_detail_write_p50() + dec_bytes(r.latencies.write_p50 as nat) + line_break() + md_detail_write_p95() + dec_bytes(r.latencies.write_p95 as nat) + line_break() + md_detail_write_p99() + dec_bytes(r.latencies.write_p99 as nat))).push(10u8));
    }
    proof {
        seq_assoc(old(out)@, md_detail_head() + engine_name(r.engine_type) + line_break() + md_detail_throughput() + dec_bytes(r.throughput as nat) + line_break() + md_detail_operations() + dec_bytes(r.operations as nat) + line_break() + md_detail_duration_micros() + dec_bytes(r.duration_micros as nat) + line_break() + md_detail_write_p50() + dec_bytes(r.latencies.write_p50 as nat) + line_break() + md_detail_write_p95() + dec_bytes(r.latencies.write_p95 as nat) + line_break() + md_detail_write_p99() + dec_bytes(r.latencies.write_p99 as nat), line_break());
    }
    let t = md_detail_write_p999_vec();
    push_all(out, &t);
    proof {
        seq_assoc(old(out)@, md_detail_head() + engine_name(r.engine_type) + line_break() + md_detail_throughput() + dec_bytes(r.throughput as nat) + line_break() + md_detail_operations() + dec_bytes(r.operations as nat) + line_break() + md_detail_duration_micros() + dec_bytes(r.duration_micros as nat) + line_break() + md_detail_write_p50() + dec_bytes(r.latencies.write_p50 as nat) + line_break() + md_detail_write_p95() + dec_bytes(r.latencies.write_p95 as nat) + line_break() + md_detail_write_p99() + dec_bytes(r.latencies.write_p99 as nat) + line_break(), md_detail_write_p999());
    }
    push_dec(out, r.latencies.write_p999);
    proof {
        seq_assoc(old(out)@, md_detail_head() + engine_name(r.engine_type) + line_break() + md_detail_throughput() + dec_bytes(r.throughput as nat) + line_break() + md_detail_operations() + dec_bytes(r.operations as nat) + line_break() + md_detail_duration_micros() + dec_bytes(r.duration_micros as nat) + line_break() + md_detail_write_p50() + dec_bytes(r.latencies.write_p50 as nat) + line_break() + md_detail_write_p95() + dec_bytes(r.latencies.write_p95 as nat) + line_break() + md_detail_write_p99() + dec_bytes(r.latencies.write_p99 as nat) + line_break() + md_detail_write_p999(), dec_bytes(r.latencies.write_p999 as nat));
    }
    out.push(10);
    proof {
        assert(old(out)@ + (md_detail_head() + engine_name(r.engine_type) + line_break() + md_detail_throughput() + dec_bytes(r.throughput as nat) + line_break() + md_detail_operations() + dec_bytes(r.operations as nat) + line_break() + md_detail_duration_micros() + dec_bytes(r.duration_micros as nat) + line_break() + md_detail_write_p50() + dec_bytes(r.latencies.write_p50 as nat) + line_break() + md_detail_write_p95() + dec_bytes(r.latencies.write_p95 as nat) + line_break() + md_detail_write_p99() + dec_bytes(r.latencies.write_p99 as nat) + line_break() + md_detail_write_p999() + dec_bytes(r.latencies.write_p999 as nat)) + line_break() =~= (old(out)@ + (md_detail_head() + engine_name(r.engine_type) + line_break() + md_detail_throughput() + dec_bytes(r.throughput as nat) + line_break() + md_detail_operations() + dec_bytes(r.operations as nat) + line_break() + md_detail_duration_micros() + dec_bytes(r.duration_micros as nat) + line_break() + md_detail_write_p50() + dec_bytes(r.latencies.write_p50 as nat) + line_break() + md_detail_write_p95() + dec_bytes(r.latencies.write_p95 as nat) + line_break() + md_detail_write_p99() + dec_bytes(r.latencies.write_p99 as nat) + line_break() + md_detail_write_p999() + dec_bytes(r.latencies.write_p999 as nat))).push(10u8));
    }
    proof {
        seq_assoc(old(out)@, md_detail_head() + engine_name(r.engine_type) + line_break() + md_detail_throughput() + dec_bytes(r.throughput as nat) + line_break() + md_detail_operations() + dec_bytes(r.operations as nat) + line_break() + md_detail_duration_micros() + dec_bytes(r.duration_micros as nat) + line_break() + md_detail_write_p50() + dec_bytes(r.latencies.write_p50 as nat) + line_break() + md_detail_write_p95() + dec_bytes(r.latencies.write_p95 as nat) + line_break() + md_detail_write_p99() + dec_bytes(r.latencies.write_p99 as nat) + line_break() + md_detail_write_p999() + dec_bytes(r.latencies.write_p999 as nat), line_break());
    }
    let t = md_detail_read_p50_vec();
    push_all(out, &t);
    proof {
        seq_assoc(old(out)@, md_detail_head() + engine_name(r.engine_type) + line_break() + md_detail_throughput() + dec_bytes(r.throughput as nat) + line_break() + md_detail_operations() + dec_bytes(r.operations as nat) + line_break() + md_detail_duration_micros() + dec_bytes(r.duration_micros as nat) + line_break() + md_detail_write_p50() + dec_bytes(r.latencies.write_p50 as nat) + line_break() + md_detail_write_p95() + dec_bytes(r.latencies.write_p95 as nat) + line_break() + md_detail_write_p99() + dec_bytes(r.latencies.write_p99 as nat) + line_break() + md_detail_write_p999() + dec_bytes(r.latencies.write_p999 as nat) + line_break(), md_detail_read_p50());
    }
    push_dec(out, r.latencies.read_p50);
    proof {
        seq_assoc(old(out)@, md_detail_head() + engine_name(r.engine_type) + line_break() + md_detail_throughput() + dec_bytes(r.throughput as nat) + line_break() + md_detail_operations() + dec_bytes(r.operations as nat) + line_break() + md_detail_duration_micros() + dec_bytes(r.duration_micros as nat) + line_break() + md_detail_write_p50() + dec_bytes(r.latencies.write_p50 as nat) + line_break() + md_detail_write_p95() + dec_bytes(r.latencies.write_p95 as nat) + line_break() + md_detail_write_p99() + dec_bytes(r.latencies.write_p99 as nat) + line_break() + md_detail_write_p999() + dec_bytes(r.latencies.write_p999 as nat) + line_break() + md_detail_read_p50(), dec_bytes(r.latencies.read_p50 as nat));
    }
    out.push(10);
    proof {
        assert(old(out)@ + (md_detail_head() + engine_name(r.engine_type) + line_break() + md_detail_throughput() + dec_bytes(r.throughput as nat) + line_break() + md_detail_operations() + dec_bytes(r.operations as nat) + line_break() + md_detail_duration_micros() + dec_bytes(r.duration_micros as nat) + line_break() + md_detail_write_p50() + dec_bytes(r.latencies.write_p50 as nat) + line_break() + md_detail_write_p95() + dec_bytes(r.latencies.write_p95 as nat) + line_break() + md_detail_write_p99() + dec_bytes(r.latencies.write_p99 as nat) + line_break() + md_detail_write_p999() + dec_bytes(r.latencies.write_p999 as nat) + line_break() + md_detail_read_p50() + dec_bytes(r.latencies.read_p50 as nat)) + line_break() =~= (old(out)@ + (md_detail_head() + engine_name(r.engine_type) + line_break() + md_detail_throughput() + dec_bytes(r.throughput as nat) + line_break() + md_detail_operations() + dec_bytes(r.operations as nat) + line_break() + md_detail_duration_micros() + dec_bytes(r.duration_micros as nat) + line_break() + md_detail_write_p50() + dec_bytes(r.latencies.write_p50 as nat) + line_break() + md_detail_write_p95() + dec_bytes(r.latencies.write_p95 as nat) + line_break() + md_detail_write_p99() + dec_bytes(r.latencies.write_p99 as nat) + line_break() + md_detail_write_p999() + dec_bytes(r.latencies.write_p999 as nat) + line_break() + md_detail_read_p50() + dec_bytes(r.latencies.read_p50 as nat))).push(10u8));
    }
    proof {
        seq_assoc(old(out)@, md_detail_head() + engine_name(r.engine_type) + line_break() + md_detail_throughput() + dec_bytes(r.throughput as nat) + line_break() + md_detail_operations() + dec_bytes(r.operations as nat) + line_break() + md_detail_duration_micros() + dec_bytes(r.duration_micros as nat) + line_break() + md_detail_write_p50() + dec_bytes(r.latencies.write_p50 as nat) + line_break() + md_detail_write_p95() + dec_bytes(r.latencies.write_p95 as nat) + line_break() + md_detail_write_p99() + dec_bytes(r.latencies.write_p99 as nat) + line_break() + md_detail_write_p999() + dec_bytes(r.latencies.write_p999 as nat) + line_break() + md_detail_read_p50() + dec_bytes(r.latencies.read_p50 as nat), line_break());
    }
    let t = md_detail_read_p95_vec();
    push_all(out, &t);
    proof {
        seq_assoc(old(out)@, md_detail_head() + engine_name(r.engine_type) + line_break() + md_detail_throughput() + dec_bytes(r.throughput as nat) + line_break() + md_detail_operations() + dec_bytes(r.operations as nat) + line_break() + md_detail_duration_micros() + dec_bytes(r.duration_micros as nat) + line_break() + md_detail_write_p50() + dec_bytes(r.latencies.write_p50 as nat) + line_break() + md_detail_write_p95() + dec_bytes(r.latencies.write_p95 as nat) + line_break() + md_detail_write_p99() + dec_bytes(r.latencies.write_p99 as nat) + line_break() + md_detail_write_p999() + dec_bytes(r.latencies.write_p999 as nat) + line_break() + md_detail_read_p50() + dec_bytes(r.latencies.read_p50 as nat) + line_break(), md_detail_read_p95());
    }
    push_dec(out, r.latencies.read_p95);
    proof {
        seq_assoc(old(out)@, md_detail_head() + engine_name(r.engine_type) + line_break() + md_detail_throughput() + dec_bytes(r.throughput as nat) + line_break() + md_detail_operations() + dec_bytes(r.operations as nat) + line_break() + md_detail_duration_micros() + dec_bytes(r.duration_micros as nat) + line_break() + md_detail_write_p50() + dec_bytes(r.latencies.write_p50 as nat) + line_break() + md_detail_write_p95() + dec_bytes(r.latencies.write_p95 as nat) + line_break() + md_detail_write_p99() + dec_bytes(r.latencies.write_p99 as nat) + line_break() + md_detail_write_p999() + dec_bytes(r.latencies.write_p999 as nat) + line_break() + md_detail_read_p50() + dec_bytes(r.latencies.read_p50 as nat) + line_break() + md_detail_read_p95(), dec_bytes(r.latencies.read_p95 as nat));
    }
    out.push(10);
    proof {
        assert(old(out)@ + (md_detail_head() + engine_name(r.engine_type) + line_break() + md_detail_throughput() + dec_bytes(r.throughput as nat) + line_break() + md_detail_operations() + dec_bytes(r.operations as nat) + line_break() + md_detail_duration_micros() + dec_bytes(r.duration_micros as nat) + line_break() + md_detail_write_p50() + dec_bytes(r.latencies.write_p50 as nat) + line_break() + md_detail_write_p95() + dec_bytes(r.latencies.write_p95 as nat) + line_break() + md_detail_write_p99() + dec_bytes(r.latencies.write_p99 as nat) + line_break() + md_detail_write_p999() + dec_bytes(r.latencies.write_p999 as nat) + line_break() + md_detail_read_p50() + dec_bytes(r.latencies.read_p50 as nat) + line_break() + md_detail_read_p95() + dec_bytes(r.latencies.read_p95 as nat)) + line_break() =~= (old(out)@ + (md_detail_head() + engine_name(r.engine_type) + line_break() + md_detail_throughput() + dec_bytes(r.throughput as nat) + line_break() + md_detail_operations() + dec_bytes(r.operations as nat) + line_break() + md_detail_duration_micros() + dec_bytes(r.duration_micros as nat) + line_break() + md_detail_write_p50() + dec_bytes(r.latencies.write_p50 as nat) + line_break() + md_detail_write_p95() + dec_bytes(r.latencies.write_p95 as nat) + line_break() + md_detail_write_p99() + dec_bytes(r.latencies.write_p99 as nat) + line_break() + md_detail_write_p999() + dec_bytes(r.latencies.write_p999 as nat) + line_break() + md_detail_read_p50() + dec_bytes(r.latencies.read_p50 as nat) + line_break() + md_detail_read_p95() + dec_bytes(r.latencies.read_p95 as nat))).push(10u8));
    }
    proof {
        seq_assoc(old(out)@, md_detail_head() + engine_name(r.engine_type) + line_break() + md_detail_throughput() + dec_bytes(r.throughput as nat) + line_break() + md_detail_operations() + dec_bytes(r.operations as nat) + line_break() + md_detail_duration_micros() + dec_bytes(r.duration_micros as nat) + line_break() + md_detail_write_p50() + dec_bytes(r.latencies.write_p50 as nat) + line_break() + md_detail_write_p95() + dec_bytes(r.latencies.write_p95 as nat) + line_break() + md_detail_write_p99() + dec_bytes(r.latencies.write_p99 as nat) + line_break() + md_detail_write_p999() + dec_bytes(r.latencies.write_p999 as nat) + line_break() + md_detail_read_p50() + dec_bytes(r.latencies.read_p50 as nat) + line_break() + md_detail_read_p95() + dec_bytes(r.latencies.read_p95 as nat), line_break());
    }
    let t = md_detail_read_p99_vec();
    push_all(out, &t);
    proof {
        seq_assoc(old(out)@, md_detail_head() + engine_name(r.engine_type) + line_break() + md_detail_throughput() + dec_bytes(r.throughput as nat) + line_break() + md_detail_operations() + dec_bytes(r.operations as nat) + line_break() + md_detail_duration_micros() + dec_bytes(r.duration_micros as nat) + line_break() + md_detail_write_p50() + dec_bytes(r.latencies.write_p50 as nat) + line_break() + md_detail_write_p95() + dec_bytes(r.latencies.write_p95 as nat) + line_break() + md_detail_write_p99() + dec_bytes(r.latencies.write_p99 as nat) + line_break() + md_detail_write_p999() + dec_bytes(r.latencies.write_p999 as nat) + line_break() + md_detail_read_p50() + dec_bytes(r.latencies.read_p50 as nat) + line_break() + md_detail_read_p95() + dec_bytes(r.latencies.read_p95 as nat) + line_break(), md_detail_read_p99());
    }
    push_dec(out, r.latencies.read_p99);
    proof {
        seq_assoc(old(out)@, md_detail_head() + engine_name(r.engine_type) + line_break() + md_detail_throughput() + dec_bytes(r.throughput as nat) + line_break() + md_detail_operations() + dec_bytes(r.operations as nat) + line_break() + md_detail_duration_micros() + dec_bytes(r.duration_micros as nat) + line_break() + md_detail_write_p50() + dec_bytes(r.latencies.write_p50 as nat) + line_break() + md_detail_write_p95() + dec_bytes(r.latencies.write_p95 as nat) + line_break() + md_detail_write_p99() + dec_bytes(r.latencies.write_p99 as nat) + line_break() + md_detail_write_p999() + dec_bytes(r.latencies.write_p999 as nat) + line_break() + md_detail_read_p50() + dec_bytes(r.latencies.read_p50 as nat) + line_break() + md_detail_read_p95() + dec_bytes(r.latencies.read_p95 as nat) + line_break() + md_detail_read_p99(), dec_bytes(r.latencies.read_p99 as nat));
    }
    out.push(10);
    proof {
        assert(old(out)@ + (md_detail_head() + engine_name(r.engine_type) + line_break() + md_detail_throughput() + dec_bytes(r.throughput as nat) + line_break() + md_detail_operations() + dec_bytes(r.operations as nat) + line_break() + md_detail_duration_micros() + dec_bytes(r.duration_micros as nat) + line_break() + md_detail_write_p50() + dec_bytes(r.latencies.write_p50 as nat) + line_break() + md_detail_write_p95() + dec_bytes(r.latencies.write_p95 as nat) + line_break() + md_detail_write_p99() + dec_bytes(r.latencies.write_p99 as nat) + line_break() + md_detail_write_p999() + dec_bytes(r.latencies.write_p999 as nat) + line_break() + md_detail_read_p50() + dec_bytes(r.latencies.read_p50 as nat) + line_break() + md_detail_read_p95() + dec_bytes(r.latencies.read_p95 as nat) + line_break() + md_detail_read_p99() + dec_bytes(r.latencies.read_p99 as nat)) + line_break() =~= (old(out)@ + (md_detail_head() + engine_name(r.engine_type) + line_break() + md_detail_throughput() + dec_bytes(r.throughput as nat) + line_break() + md_detail_operations() + dec_bytes(r.operations as nat) + line_break() + md_detail_duration_micros() + dec_bytes(r.duration_micros as nat) + line_break() + md_detail_write_p50() + dec_bytes(r.latencies.write_p50 as nat) + line_break() + md_detail_write_p95() + dec_bytes(r.latencies.write_p95 as nat) + line_break() + md_detail_write_p99() + dec_bytes(r.latencies.write_p99 as nat) + line_break() + md_detail_write_p999() + dec_bytes(r.latencies.write_p999 as nat) + line_break() + md_detail_read_p50() + dec_bytes(r.latencies.read_p50 as nat) + line_break() + md_detail_read_p95() + dec_bytes(r.latencies.read_p95 as nat) + line_break() + md_detail_read_p99() + dec_bytes(r.latencies.read_p99 as nat))).push(10u8));
    }
    proof {
        seq_assoc(old(out)@, md_detail_head() + engine_name(r.engine_type) + line_break() + md_detail_throughput() + dec_bytes(r.throughput as nat) + line_break() + md_detail_operations() + dec_bytes(r.operations as nat) + line_break() + md_detail_duration_micros() + dec_bytes(r.duration_micros as nat) + line_break() + md_detail_write_p50() + dec_bytes(r.latencies.write_p50 as nat) + line_break() + md_detail_write_p95() + dec_bytes(r.latencies.write_p95 as nat) + line_break() + md_detail_write_p99() + dec_bytes(r.latencies.write_p99 as nat) + line_break() + md_detail_write_p999() + dec_bytes(r.latencies.write_p999 as nat) + line_break() + md_detail_read_p50() + dec_bytes(r.latencies.read_p50 as nat) + line_break() + md_detail_read_p95() + dec_bytes(r.latencies.read_p95 as nat) + line_break() + md_detail_read_p99() + dec_bytes(r.latencies.read_p99 as nat), line_break());
    }
    let t = md_detail_read_p999_vec();
    push_all(out, &t);
    proof {
        seq_assoc(old(out)@, md_detail_head() + engine_name(r.engine_type) + line_break() + md_detail_throughput() + dec_bytes(r.throughput as nat) + line_break() + md_detail_operations() + dec_bytes(r.operations as nat) + line_break() + md_detail_duration_micros() + dec_bytes(r.duration_micros as nat) + line_break() + md_detail_write_p50() + dec_bytes(r.latencies.write_p50 as nat) + line_break() + md_detail_write_p95() + dec_bytes(r.latencies.write_p95 as nat) + line_break() + md_detail_write_p99() + dec_bytes(r.latencies.write_p99 as nat) + line_break() + md_detail_write_p999() + dec_bytes(r.latencies.write_p999 as nat) + line_break() + md_detail_read_p50() + dec_bytes(r.latencies.read_p50 as nat) + line_break() + md_detail_read_p95() + dec_bytes(r.latencies.read_p95 as nat) + line_break() + md_detail_read_p99() + dec_bytes(r.latencies.read_p99 as nat) + line_break(), md_detail_read_p999());
    }
    push_dec(out, r.latencies.read_p999);
    proof {
        seq_assoc(old(out)@, md_detail_head() + engine_name(r.engine_type) + line_break() + md_detail_throughput() + dec_bytes(r.throughput as nat) + line_break() + md_detail_operations() + dec_bytes(r.operations as nat) + line_break() + md_detail_duration_micros() + dec_bytes(r.duration_micros as nat) + line_break() + md_detail_write_p50() + dec_bytes(r.latencies.write_p50 as nat) + line_break() + md_detail_write_p95() + dec_bytes(r.latencies.write_p95 as nat) + line_break() + md_detail_write_p99() + dec_bytes(r.latencies.write_p99 as nat) + line_break() + md_detail_write_p999() + dec_bytes(r.latencies.write_p999 as nat) + line_break() + md_detail_read_p50() + dec_bytes(r.latencies.read_p50 as nat) + line_break() + md_detail_read_p95() + dec_bytes(r.latencies.read_p95 as nat) + line_break() + md_detail_read_p99() + dec_bytes(r.latencies.read_p99 as nat) + line_break() + md_detail_read_p999(), dec_bytes(r.latencies.read_p999 as nat));
    }
    out.push(10);
    proof {
        assert(old(out)@ + (md_detail_head() + engine_name(r.engine_type) + line_break() + md_detail_throughput() + dec_bytes(r.throughput as nat) + line_break() + md_detail_operations() + dec_bytes(r.operations as nat) + line_break() + md_detail_duration_micros() + dec_bytes(r.duration_micros as nat) + line_break() + md_detail_write_p50() + dec_bytes(r.latencies.write_p50 as nat) + line_break() + md_detail_write_p95() + dec_bytes(r.latencies.write_p95 as nat) + line_break() + md_detail_write_p99() + dec_bytes(r.latencies.write_p99 as nat) + line_break() + md_detail_write_p999() + dec_bytes(r.latencies.write_p999 as nat) + line_break() + md_detail_read_p50() + dec_bytes(r.latencies.read_p50 as nat) + line_break() + md_detail_read_p95() + dec_bytes(r.latencies.read_p95 as nat) + line_break() + md_detail_read_p99() + dec_bytes(r.latencies.read_p99 as nat) + line_break() + md_detail_read_p999() + dec_bytes(r.latencies.read_p999 as nat)) + line_break() =~= (old(out)@ + (md_detail_head() + engine_name(r.engine_type) + line_break() + md_detail_throughput() + dec_bytes(r.throughput as nat) + line_break() + md_detail_operations() + dec_bytes(r.operations as nat) + line_break() + md_detail_duration_micros() + dec_bytes(r.duration_micros as nat) + line_break() + md_detail_write_p50() + dec_bytes(r.latencies.write_p50 as nat) + line_break() + md_detail_write_p95() + dec_bytes(r.latencies.write_p95 as nat) + line_break() + md_detail_write_p99() + dec_bytes(r.latencies.write_p99 as nat) + line_break() + md_detail_write_p999() + dec_bytes(r.latencies.write_p999 as nat) + line_break() + md_detail_read_p50() + dec_bytes(r.latencies.read_p50 as nat) + line_break() + md_detail_read_p95() + dec_bytes(r.latencies.read_p95 as nat) + line_break() + md_detail_read_p99() + dec_bytes(r.latencies.read_p99 as nat) + line_break() + md_detail_read_p999() + dec_bytes(r.latencies.read_p999 as nat))).push(10u8));
    }
    proof {
        seq_assoc(old(out)@, md_detail_head() + engine_name(r.engine_type) + line_break() + md_detail_throughput() + dec_bytes(r.throughput as nat) + line_break() + md_detail_operations() + dec_bytes(r.operations as nat) + line_break() + md_detail_duration_micros() + dec_bytes(r.duration_micros as nat) + line_break() + md_detail_write_p50() + dec_bytes(r.latencies.write_p50 as nat) + line_break() + md_detail_write_p95() + dec_bytes(r.latencies.write_p95 as nat) + line_break() + md_detail_write_p99() + dec_bytes(r.latencies.write_p99 as nat) + line_break() + md_detail_write_p999() + dec_bytes(r.latencies.write_p999 as nat) + line_break() + md_detail_read_p50() + dec_bytes(r.latencies.read_p50 as nat) + line_break() + md_detail_read_p95() + dec_bytes(r.latencies.read_p95 as nat) + line_break() + md_detail_read_p99() + dec_bytes(r.latencies.read_p99 as nat) + line_break() + md_detail_read_p999() + dec_bytes(r.latencies.read_p999 as nat), line_break());
    }
    let t = md_detail_scan_p99_vec();
    push_all(out, &t);
    proof {
        seq_assoc(old(out)@, md_detail_head() + engine_name(r.engine_type) + line_break() + md_detail_throughput() + dec_bytes(r.throughput as nat) + line_break() + md_detail_operations() + dec_bytes(r.operations as nat) + line_break() + md_detail_duration_micros() + dec_bytes(r.duration_micros as nat) + line_break() + md_detail_write_p50() + dec_bytes(r.latencies.write_p50 as nat) + line_break() + md_detail_write_p95() + dec_bytes(r.latencies.write_p95 as nat) + line_break() + md_detail_write_p99() + dec_bytes(r.latencies.write_p99 as nat) + line_break() + md_detail_write_p999() + dec_bytes(r.latencies.write_p999 as nat) + line_break() + md_detail_read_p50() + dec_bytes(r.latencies.read_p50 as nat) + line_break() + md_detail_read_p95() + dec_bytes(r.latencies.read_p95 as nat) + line_break() + md_detail_read_p99() + dec_bytes(r.latencies.read_p99 as nat) + line_break() + md_detail_read_p999() + dec_bytes(r.latencies.read_p999 as nat) + line_break(), md_detail_scan_p99());
    }
    push_dec(out, r.scan_p99);
    proof {
        seq_assoc(old(out)@, md_detail_head() + engine_name(r.engine_type) + line_break() + md_detail_throughput() + dec_bytes(r.throughput as nat) + line_break() + md_detail_operations() + dec_bytes(r.operations as nat) + line_break() + md_detail_duration_micros() + dec_bytes(r.duration_micros as nat) + line_break() + md_detail_write_p50() + dec_bytes(r.latencies.write_p50 as nat) + line_break() + md_detail_write_p95() + dec_bytes(r.latencies.write_p95 as nat) + line_break() + md_detail_write_p99() + dec_bytes(r.latencies.write_p99 as nat) + line_break() + md_detail_write_p999() + dec_bytes(r.latencies.write_p999 as nat) + line_break() + md_detail_read_p50() + dec_bytes(r.latencies.read_p50 as nat) + line_break() + md_detail_read_p95() + dec_bytes(r.latencies.read_p95 as nat) + line_break() + md_detail_read_p99() + dec_bytes(r.latencies.read_p99 as nat) + line_break() + md_detail_read_p999() + dec_bytes(r.latencies.read_p999 as nat) + line_break() + md_detail_scan_p99(), dec_bytes(r.scan_p99 as nat));
    }
    out.push(10);
    proof {
        assert(old(out)@ + (md_detail_head() + engine_name(r.engine_type) + line_break() + md_detail_throughput() + dec_bytes(r.throughput as nat) + line_break() + md_detail_operations() + dec_bytes(r.operations as nat) + line_break() + md_detail_duration_micros() + dec_bytes(r.duration_micros as nat) + line_break() + md_detail_write_p50() + dec_bytes(r.latencies.write_p50 as nat) + line_break() + md_detail_write_p95() + dec_bytes(r.latencies.write_p95 as nat) + line_break() + md_detail_write_p99() + dec_bytes(r.latencies.write_p99 as nat) + line_break() + md_detail_write_p999() + dec_bytes(r.latencies.write_p999 as nat) + line_break() + md_detail_read_p50() + dec_bytes(r.latencies.read_p50 as nat) + line_break() + md_detail_read_p95() + dec_bytes(r.latencies.read_p95 as nat) + line_break() + md_detail_read_p99() + dec_bytes(r.latencies.read_p99 as nat) + line_break() + md_detail_read_p999() + dec_bytes(r.latencies.read_p999 as nat) + line_break() + md_detail_scan_p99() + dec_bytes(r.scan_p99 as nat)) + line_break() =~= (old(out)@ + (md_detail_head() + engine_name(r.engine_type) + line_break() + md_detail_throughput() + dec_bytes(r.throughput as nat) + line_break() + md_detail_operations() + dec_bytes(r.operations as nat) + line_break() + md_detail_duration_micros() + dec_bytes(r.duration_micros as nat) + line_break() + md_detail_write_p50() + dec_bytes(r.latencies.write_p50 as nat) + line_break() + md_detail_write_p95() + dec_bytes(r.latencies.write_p95 as nat) + line_break() + md_detail_write_p99() + dec_bytes(r.latencies.write_p99 as nat) + line_break() + md_detail_write_p999() + dec_bytes(r.latencies.write_p999 as nat) + line_break() + md_detail_read_p50() + dec_bytes(r.latencies.read_p50 as nat) + line_break() + md_detail_read_p95() + dec_bytes(r.latencies.read_p95 as nat) + line_break() + md_detail_read_p99() + dec_bytes(r.latencies.read_p99 as nat) + line_break() + md_detail_read_p999() + dec_bytes(r.latencies.read_p999 as nat) + line_break() + md_detail_scan_p99() + dec_bytes(r.scan_p99 as nat))).push(10u8));
    }
    proof {
        seq_assoc(old(out)@, md_detail_head() + engine_name(r.engine_type) + line_break() + md_detail_throughput() + dec_bytes(r.throughput as nat) + line_break() + md_detail_operations() + dec_bytes(r.operations as nat) + line_break() + md_detail_duration_micros() + dec_bytes(r.duration_micros as nat) + line_break() + md_detail_write_p50() + dec_bytes(r.latencies.write_p50 as nat) + line_break() + md_detail_write_p95() + dec_bytes(r.latencies.write_p95 as nat) + line_break() + md_detail_write_p99() + dec_bytes(r.latencies.write_p99 as nat) + line_break() + md_detail_write_p999() + dec_bytes(r.latencies.write_p999 as nat) + line_break() + md_detail_read_p50() + dec_bytes(r.latencies.read_p50 as nat) + line_break() + md_detail_read_p95() + dec_bytes(r.latencies.read_p95 as nat) + line_break() + md_detail_read_p99() + dec_bytes(r.latencies.read_p99 as nat) + line_break() + md_detail_read_p999() + dec_bytes(r.latencies.read_p999 as nat) + line_break() + md_detail_scan_p99() + dec_bytes(r.scan_p99 as nat), line_break());
    }
    let t = md_detail_write_amplification_vec();
    push_all(out, &t);
    proof {
        seq_assoc(old(out)@, md_detail_head() + engine_name(r.engine_type) + line_break() + md_detail_throughput() + dec_bytes(r.throughput as nat) + line_break() + md_detail_operations() + dec_bytes(r.operations as nat) + line_break() + md_detail_duration_micros() + dec_bytes(r.duration_micros as nat) + line_break() + md_detail_write_p50() + dec_bytes(r.latencies.write_p50 as nat) + line_break() + md_detail_write_p95() + dec_bytes(r.latencies.write_p95 as nat) + line_break() + md_detail_write_p99() + dec_bytes(r.latencies.write_p99 as nat) + line_break() + md_detail_write_p999() + dec_bytes(r.latencies.write_p999 as nat) + line_break() + md_detail_read_p50() + dec_bytes(r.latencies.read_p50 as nat) + line_break() + md_detail_read_p95() + dec_bytes(r.latencies.read_p95 as nat) + line_break() + md_detail_read_p99() + dec_bytes(r.latencies.read_p99 as nat) + line_break() + md_detail_read_p999() + dec_bytes(r.latencies.read_p999 as nat) + line_break() + md_detail_scan_p99() + dec_bytes(r.scan_p99 as nat) + line_break(), md_detail_write_amplification());
    }
    push_dec(out, r.write_amplification);
    proof {
        seq_assoc(old(out)@, md_detail_head() + engine_name(r.engine_type) + line_break() + md_detail_throughput() + dec_bytes(r.throughput as nat) + line_break() + md_detail_operations() + dec_bytes(r.operations as nat) + line_break() + md_detail_duration_micros() + dec_bytes(r.duration_micros as nat) + line_break() + md_detail_write_p50() + dec_bytes(r.latencies.write_p50 as nat) + line_break() + md_detail_write_p95() + dec_bytes(r.latencies.write_p95 as nat) + line_break() + md_detail_write_p99() + dec_bytes(r.latencies.write_p99 as nat) + line_break() + md_detail_write_p999() + dec_bytes(r.latencies.write_p999 as nat) + line_break() + md_detail_read_p50() + dec_bytes(r.latencies.read_p50 as nat) + line_break() + md_detail_read_p95() + dec_bytes(r.latencies.read_p95 as nat) + line_break() + md_detail_read_p99() + dec_bytes(r.latencies.read_p99 as nat) + line_break() + md_detail_read_p999() + dec_bytes(r.latencies.read_p999 as nat) + line_break() + md_detail_scan_p99() + dec_bytes(r.scan_p99 as nat) + line_break() + md_detail_write_amplification(), dec_bytes(r.write_amplification as nat));
    }
    out.push(10);
    proof {
        assert(old(out)@ + (md_detail_head() + engine_name(r.engine_type) + line_break() + md_detail_throughput() + dec_bytes(r.throughput as nat) + line_break() + md_detail_operations() + dec_bytes(r.operations as nat) + line_break() + md_detail_duration_micros() + dec_bytes(r.duration_micros as nat) + line_break() + md_detail_write_p50() + dec_bytes(r.latencies.write_p50 as nat) + line_break() + md_detail_write_p95() + dec_bytes(r.latencies.write_p95 as nat) + line_break() + md_detail_write_p99() + dec_bytes(r.latencies.write_p99 as nat) + line_break() + md_detail_write_p999() + dec_bytes(r.latencies.write_p999 as nat) + line_break() + md_detail_read_p50() + dec_bytes(r.latencies.read_p50 as nat) + line_break() + md_detail_read_p95() + dec_bytes(r.latencies.read_p95 as nat) + line_break() + md_detail_read_p99() + dec_bytes(r.latencies.read_p99 as nat) + line_break() + md_detail_read_p999() + dec_bytes(r.latencies.read_p999 as nat) + line_break() + md_detail_scan_p99() + dec_bytes(r.scan_p99 as nat) + line_break() + md_detail_write_amplification() + dec_bytes(r.write_amplification as nat)) + line_break() =~= (old(out)@ + (md_detail_head() + engine_name(r.engine_type) + line_break() + md_detail_throughput() + dec_bytes(r.throughput as nat) + line_break() + md_detail_operations() + dec_bytes(r.operations as nat) + line_break() + md_detail_duration_micros() + dec_bytes(r.duration_micros as nat) + line_break() + md_detail_write_p50() + dec_bytes(r.latencies.write_p50 as nat) + line_break() + md_detail_write_p95() + dec_bytes(r.latencies.write_p95 as nat) + line_break() + md_detail_write_p99() + dec_bytes(r.latencies.write_p99 as nat) + line_break() + md_detail_write_p999() + dec_bytes(r.latencies.write_p999 as nat) + line_break() + md_detail_read_p50() + dec_bytes(r.latencies.read_p50 as nat) + line_break() + md_detail_read_p95() + dec_bytes(r.latencies.read_p95 as nat) + line_break() + md_detail_read_p99() + dec_bytes(r.latencies.read_p99 as nat) + line_break() + md_detail_read_p999() + dec_bytes(r.latencies.read_p999 as nat) + line_break() + md_detail_scan_p99() + dec_bytes(r.scan_p99 as nat) + line_break() + md_detail_write_amplification() + dec_bytes(r.write_amplification as nat))).push(10u8));
    }
    proof {
        seq_assoc(old(out)@, md_detail_head() + engine_name(r.engine_type) + line_break() + md_detail_throughput() + dec_bytes(r.throughput as nat) + line_break() + md_detail_operations() + dec_bytes(r.operations as nat) + line_break() + md_detail_duration_micros() + dec_bytes(r.duration_micros as nat) + line_break() + md_detail_write_p50() + dec_bytes(r.latencies.write_p50 as nat) + line_break() + md_detail_write_p95() + dec_bytes(r.latencies.write_p95 as nat) + line_break() + md_detail_write_p99() + dec_bytes(r.latencies.write_p99 as nat) + line_break() + md_detail_write_p999() + dec_bytes(r.latencies.write_p999 as nat) + line_break() + md_detail_read_p50() + dec_bytes(r.latencies.read_p50 as nat) + line_break() + md_detail_read_p95() + dec_bytes(r.latencies.read_p95 as nat) + line_break() + md_detail_read_p99() + dec_bytes(r.latencies.read_p99 as nat) + line_break() + md_detail_read_p999() + dec_bytes(r.latencies.read_p999 as nat) + line_break() + md_detail_scan_p99() + dec_bytes(r.scan_p99 as nat) + line_break() + md_detail_write_amplification() + dec_bytes(r.write_amplification as nat), line_break());
    }
    let t = md_detail_space_amplification_vec();
    push_all(out, &t);
    proof {
        seq_assoc(old(out)@, md_detail_head() + engine_name(r.engine_type) + line_break() + md_detail_throughput() + dec_bytes(r.throughput as nat) + line_break() + md_detail_operations() + dec_bytes(r.operations as nat) + line_break() + md_detail_duration_micros() + dec_bytes(r.duration_micros as nat) + line_break() + md_detail_write_p50() + dec_bytes(r.latencies.write_p50 as nat) + line_break() + md_detail_write_p95() + dec_bytes(r.latencies.write_p95 as nat) + line_break() + md_detail_write_p99() + dec_bytes(r.latencies.write_p99 as nat) + line_break() + md_detail_write_p999() + dec_bytes(r.latencies.write_p999 as nat) + line_break() + md_detail_read_p50() + dec_bytes(r.latencies.read_p50 as nat) + line_break() + md_detail_read_p95() + dec_bytes(r.latencies.read_p95 as nat) + line_break() + md_detail_read_p99() + dec_bytes(r.latencies.read_p99 as nat) + line_break() + md_detail_read_p999() + dec_bytes(r.latencies.read_p999 as nat) + line_break() + md_detail_scan_p99() + dec_bytes(r.scan_p99 as nat) + line_break() + md_detail_write_amplification() + dec_bytes(r.write_amplification as nat) + line_break(), md_detail_space_amplification());
    }
    push_dec(out, r.space_amplification);
    proof {
        seq_assoc(old(out)@, md_detail_head() + engine_name(r.engine_type) + line_break() + md_detail_throughput() + dec_bytes(r.throughput as nat) + line_break() + md_detail_operations() + dec_bytes(r.operations as nat) + line_break() + md_detail_duration_micros() + dec_bytes(r.duration_micros as nat) + line_break() + md_detail_write_p50() + dec_bytes(r.latencies.write_p50 as nat) + line_break() + md_detail_write_p95() + dec_bytes(r.latencies.write_p95 as nat) + line_break() + md_detail_write_p99() + dec_bytes(r.latencies.write_p99 as nat) + line_break() + md_detail_write_p999() + dec_bytes(r.latencies.write_p999 as nat) + line_break() + md_detail_read_p50() + dec_bytes(r.latencies.read_p50 as nat) + line_break() + md_detail_read_p95() + dec_bytes(r.latencies.read_p95 as nat) + line_break() + md_detail_read_p99() + dec_bytes(r.latencies.read_p99 as nat) + line_break() + md_detail_read_p999() + dec_bytes(r.latencies.read_p999 as nat) + line_break() + md_detail_scan_p99() + dec_bytes(r.scan_p99 as nat) + line_break() + md_detail_write_amplification() + dec_bytes(r.write_amplification as nat) + line_break() + md_detail_space_amplification(), dec_bytes(r.space_amplification as nat));
    }
    out.push(10);
    proof {
        assert(old(out)@ + (md_detail_head() + engine_name(r.engine_type) + line_break() + md_detail_throughput() + dec_bytes(r.throughput as nat) + line_break() + md_detail_operations() + dec_bytes(r.operations as nat) + line_break() + md_detail_duration_micros() + dec_bytes(r.duration_micros as nat) + line_break() + md_detail_write_p50() + dec_bytes(r.latencies.write_p50 as nat) + line_break() + md_detail_write_p95() + dec_bytes(r.latencies.write_p95 as nat) + line_break() + md_detail_write_p99() + dec_bytes(r.latencies.write_p99 as nat) + line_break() + md_detail_write_p999() + dec_bytes(r.latencies.write_p999 as nat) + line_break() + md_detail_read_p50() + dec_bytes(r.latencies.read_p50 as nat) + line_break() + md_detail_read_p95() + dec_bytes(r.latencies.read_p95 as nat) + line_break() + md_detail_read_p99() + dec_bytes(r.latencies.read_p99 as nat) + line_break() + md_detail_read_p999() + dec_bytes(r.latencies.read_p999 as nat) + line_break() + md_detail_scan_p99() + dec_bytes(r.scan_p99 as nat) + line_break() + md_detail_write_amplification() + dec_bytes(r.write_amplification as nat) + line_break() + md_detail_space_amplification() + dec_bytes(r.space_amplification as nat)) + line_break() =~= (old(out)@ + (md_detail_head() + engine_name(r.engine_type) + line_break() + md_detail_throughput() + dec_bytes(r.throughput as nat) + line_break() + md_detail_operations() + dec_bytes(r.operations as nat) + line_break() + md_detail_duration_micros() + dec_bytes(r.duration_micros as nat) + line_break() + md_detail_write_p50() + dec_bytes(r.latencies.write_p50 as nat) + line_break() + md_detail_write_p95() + dec_bytes(r.latencies.write_p95 as nat) + line_break() + md_detail_write_p99() + dec_bytes(r.latencies.write_p99 as nat) + line_break() + md_detail_write_p999() + dec_bytes(r.latencies.write_p999 as nat) + line_break() + md_detail_read_p50() + dec_bytes(r.latencies.read_p50 as nat) + line_break() + md_detail_read_p95() + dec_bytes(r.latencies.read_p95 as nat) + line_break() + md_detail_read_p99() + dec_bytes(r.latencies.read_p99 as nat) + line_break() + md_detail_read_p999() + dec_bytes(r.latencies.read_p999 as nat) + line_break() + md_detail_scan_p99() + dec_bytes(r.scan_p99 as nat) + line_break() + md_detail_write_amplification() + dec_bytes(r.write_amplification as nat) + line_break() + md_detail_space_amplification() + dec_bytes(r.space_amplification as nat))).push(10u8));
    }
    proof {
        seq_assoc(old(out)@, md_detail_head() + engine_name(r.engine_type) + line_break() + md_detail_throughput() + dec_bytes(r.throughput as nat) + line_break() + md_detail_operations() + dec_bytes(r.operations as nat) + line_break() + md_detail_duration_micros() + dec_bytes(r.duration_micros as nat) + line_break() + md_detail_write_p50() + dec_bytes(r.latencies.write_p50 as nat) + line_break() + md_detail_write_p95() + dec_bytes(r.latencies.write_p95 as nat) + line_break() + md_detail_write_p99() + dec_bytes(r.latencies.write_p99 as nat) + line_break() + md_detail_write_p999() + dec_bytes(r.latencies.write_p999 as nat) + line_break() + md_detail_read_p50() + dec_bytes(r.latencies.read_p50 as nat) + line_break() + md_detail_read_p95() + dec_bytes(r.latencies.read_p95 as nat) + line_break() + md_detail_read_p99() + dec_bytes(r.latencies.read_p99 as nat) + line_break() + md_detail_read_p999() + dec_bytes(r.latencies.read_p999 as nat) + line_break() + md_detail_scan_p99() + dec_bytes(r.scan_p99 as nat) + line_break() + md_detail_write_amplification() + dec_bytes(r.write_amplification as nat) + line_break() + md_detail_space_amplification() + dec_bytes(r.space_amplification as nat), line_break());
    }
}

/// Appending one more result extends the CSV rows by its row.
proof fn lemma_csv_lines_snoc(rs: Seq<BenchmarkResult>, r: BenchmarkResult)
    ensures
        csv_lines(rs.push(r)) == csv_lines(rs) + csv_line(r),
    decreases rs.len(),
{
    let e = rs.push(r);
    if rs.len() == 0 {
        assert(e[0] == r);
        assert(e.skip(1) =~= Seq::<BenchmarkResult>::empty());
        assert(csv_lines(e) == csv_line(e[0]) + csv_lines(e.skip(1)));
        assert(csv_lines(e.skip(1)) == Seq::<u8>::empty());
        assert(csv_lines(rs) == Seq::<u8>::empty());
        assert(csv_line(r) + Seq::<u8>::empty() =~= csv_line(r));
        assert(Seq::<u8>::empty() + csv_line(r) =~= csv_line(r));
    } else {
        assert(e.skip(1) =~= rs.skip(1).push(r));
        lemma_csv_lines_snoc(rs.skip(1), r);
        assert(e[0] == rs[0]);
        assert(csv_lines(e) == csv_line(e[0]) + csv_lines(e.skip(1)));
        assert(csv_lines(rs) == csv_line(rs[0]) + csv_lines(rs.skip(1)));
        seq_assoc(csv_line(rs[0]), csv_lines(rs.skip(1)), csv_line(r));
    }
}

/// Appending one more row extends the markdown rows by its line.
proof fn lemma_md_lines_snoc(rows: Seq<MetricRow>, row: MetricRow)
    ensures
        md_lines(rows.push(row)) == md_lines(rows) + md_line(row),
    decreases rows.len(),
{
    let e = rows.push(row);
    if rows.len() == 0 {
        assert(e[0] == row);
        assert(e.skip(1) =~= Seq::<MetricRow>::empty());
        assert(e.len() == 1);
        assert(md_lines(e) == md_line(e[0]) + md_lines(e.skip(1)));
        assert(md_lines(e.skip(1)) == Seq::<u8>::empty());
        assert(md_lines(rows) == Seq::<u8>::empty());
        assert(md_line(row) + Seq::<u8>::empty() =~= md_line(row));
        assert(Seq::<u8>::empty() + md_line(row) =~= md_line(row));
    } else {
        assert(e.skip(1) =~= rows.skip(1).push(row));
        lemma_md_lines_snoc(rows.skip(1), row);
        assert(e[0] == rows[0]);
        assert(md_lines(e) == md_line(e[0]) + md_lines(e.skip(1)));
        assert(md_lines(rows) == md_line(rows[0]) + md_lines(rows.skip(1)));
        seq_assoc(md_line(rows[0]), md_lines(rows.skip(1)), md_line(row));
    }
}

/// Renders a result list as CSV: the fixed header, then one flat row per
/// engine in the header's column order.
pub fn render_csv(results: &Vec<BenchmarkResult>) -> (r: Vec<u8>)
    ensures
        r@ == render_csv_spec(results@),
{
    let mut out: Vec<u8> = csv_header_vec();
    let mut i: usize = 0;
    proof {
        assert(results@.take(0) =~= Seq::<BenchmarkResult>::empty());
        assert(out@ + csv_lines(results@.take(0)) =~= out@);
    }
    while i < results.len()
        invariant
            0 <= i <= results@.len(),
            out@ == csv_header() + csv_lines(results@.take(i as int)),
        decreases results@.len() - i,
    {
        csv_line_exec(&mut out, &results[i]);
        proof {
            assert(results@.take(i + 1) =~= results@.take(i as int).push(results@[i as int]));
            lemma_csv_lines_snoc(results@.take(i as int), results@[i as int]);
            seq_assoc(csv_header(), csv_lines(results@.take(i as int)), csv_line(results@[i as int]));
        }
        i = i + 1;
    }
    proof {
        assert(results@.take(results@.len() as int) =~= results@);
    }
    out
}

/// Renders a comparison of two results as markdown: a table with the metric,
/// each engine's value, the winner and its lead, followed by a detail
/// section for each result.
pub fn render_markdown(report: &ComparisonReport, a: &BenchmarkResult, b: &BenchmarkResult) -> (r:
    Vec<u8>)
    ensures
        r@ == render_markdown_spec(report.rows@, *a, *b),
{
    let mut out: Vec<u8> = md_head_open_vec();
    let t = engine_name_vec(a.engine_type);
    push_all(&mut out, &t);
    proof {
        seq_assoc(Seq::<u8>::empty(), md_head_open(), engine_name(a.engine_type));
        assert(Seq::<u8>::empty() + md_head_open() =~= md_head_open());
    }
    let t = md_head_sep_vec();
    push_all(&mut out, &t);
    proof {
        seq_assoc(md_head_open(), engine_name(a.engine_type), md_head_sep());
    }
    let t = engine_name_vec(b.engine_type);
    push_all(&mut out, &t);
    proof {
        seq_assoc(md_head_open() + engine_name(a.engine_type), md_head_sep(), engine_name(b.engine_type));
    }
    let t = md_head_tail_vec();
    push_all(&mut out, &t);
    proof {
        seq_assoc(
            md_head_open() + engine_name(a.engine_type) + md_head_sep(),
            engine_name(b.engine_type),
            md_head_tail(),
        );
        assert(out@ == md_header(a.engine_type, b.engine_type));
    }
    let mut i: usize = 0;
    proof {
        assert(report.rows@.take(0) =~= Seq::<MetricRow>::empty());
        assert(out@ + md_lines(report.rows@.take(0)) =~= out@);
    }
    while i < report.rows.len()
        invariant
            0 <= i <= report.rows@.len(),
            out@ == md_header(a.engine_type, b.engine_type) + md_lines(report.rows@.take(i as int)),
        decreases report.rows@.len() - i,
    {
        md_line_exec(&mut out, &report.rows[i]);
        proof {
            assert(report.rows@.take(i + 1) =~= report.rows@.take(i as int).push(
                report.rows@[i as int],
            ));
            lemma_md_lines_snoc(report.rows@.take(i as int), report.rows@[i as int]);
            seq_assoc(
                md_header(a.engine_type, b.engine_type),
                md_lines(report.rows@.take(i as int)),
                md_line(report.rows@[i as int]),
            );
        }
        i = i + 1;
    }
    proof {
        assert(report.rows@.take(report.rows@.len() as int) =~= report.rows@);
    }
    md_detail_exec(&mut out, a);
    proof {
        seq_assoc(md_header(a.engine_type, b.engine_type), md_lines(report.rows@), md_detail(*a));
    }
    md_detail_exec(&mut out, b);
    proof {
        seq_assoc(
            md_header(a.engine_type, b.engine_type) + md_lines(report.rows@),
            md_detail(*a),
            md_detail(*b),
        );
    }
    out
}

} // verus!
