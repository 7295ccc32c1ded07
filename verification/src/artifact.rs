use vstd::prelude::*;
use crate::amplification::EngineType;
use crate::config::digit_prefix_len;
use crate::config::digits_value;
use crate::config::is_digit_byte;
use crate::config::lemma_digit_prefix_len_from_scan;
use crate::config::lemma_digits_value_extend_grows;
use crate::metrics::BenchmarkResult;
use crate::metrics::LatencyStats;

verus! {

// The artifact grammar: a canonical JSON array of result objects, fields in
// a fixed order, no whitespace. The renderer emits exactly this shape, the
// parser accepts exactly it, and a rendered list parses back to the same
// records (`lemma_artifact_round_trip`).

/// Opening of a record up to its engine token.
pub open spec fn lbl_engine() -> Seq<u8> {
    seq![123u8, 34, 101, 110, 103, 105, 110, 101, 34, 58, 34]
}

/// Label preceding the `throughput` field.
pub open spec fn lbl_throughput() -> Seq<u8> {
    seq![34u8, 44, 34, 116, 104, 114, 111, 117, 103, 104, 112, 117, 116, 34, 58]
}

/// Label preceding the `operations` field.
pub open spec fn lbl_operations() -> Seq<u8> {
    seq![44u8, 34, 111, 112, 101, 114, 97, 116, 105, 111, 110, 115, 34, 58]
}

/// Label preceding the `duration_micros` field.
pub open spec fn lbl_duration_micros() -> Seq<u8> {
    seq![44u8, 34, 100, 117, 114, 97, 116, 105, 111, 110, 95, 109, 105, 99, 114, 111, 115, 34, 58]
}

/// Label preceding the `write_p50` field.
pub open spec fn lbl_write_p50() -> Seq<u8> {
    seq![44u8, 34, 119, 114, 105, 116, 101, 95, 112, 53, 48, 34, 58]
}

/// Label preceding the `write_p95` field.
pub open spec fn lbl_write_p95() -> Seq<u8> {
    seq![44u8, 34, 119, 114, 105, 116, 101, 95, 112, 57, 53, 34, 58]
}

/// Label preceding the `write_p99` field.
pub open spec fn lbl_write_p99() -> Seq<u8> {
    seq![44u8, 34, 119, 114, 105, 116, 101, 95, 112, 57, 57, 34, 58]
}

/// Label preceding the `write_p999` field.
pub open spec fn lbl_write_p999() -> Seq<u8> {
    seq![44u8, 34, 119, 114, 105, 116, 101, 95, 112, 57, 57, 57, 34, 58]
}

/// Label preceding the `read_p50` field.
pub open spec fn lbl_read_p50() -> Seq<u8> {
    seq![44u8, 34, 114, 101, 97, 100, 95, 112, 53, 48, 34, 58]
}

/// Label preceding the `read_p95` field.
pub open spec fn lbl_read_p95() -> Seq<u8> {
    seq![44u8, 34, 114, 101, 97, 100, 95, 112, 57, 53, 34, 58]
}

/// Label preceding the `read_p99` field.
pub open spec fn lbl_read_p99() -> Seq<u8> {
    seq![44u8, 34, 114, 101, 97, 100, 95, 112, 57, 57, 34, 58]
}

/// Label preceding the `read_p999` field.
pub open spec fn lbl_read_p999() -> Seq<u8> {
    seq![44u8, 34, 114, 101, 97, 100, 95, 112, 57, 57, 57, 34, 58]
}

/// Label preceding the `scan_p99` field.
pub open spec fn lbl_scan_p99() -> Seq<u8> {
    seq![44u8, 34, 115, 99, 97, 110, 95, 112, 57, 57, 34, 58]
}

/// Label preceding the `write_amplification` field.
pub open spec fn lbl_write_amplification() -> Seq<u8> {
    seq![44u8, 34, 119, 114, 105, 116, 101, 95, 97, 109, 112, 108, 105, 102, 105, 99, 97, 116, 105, 111, 110, 34, 58]
}

/// Label preceding the `space_amplification` field.
pub open spec fn lbl_space_amplification() -> Seq<u8> {
    seq![44u8, 34, 115, 112, 97, 99, 101, 95, 97, 109, 112, 108, 105, 102, 105, 99, 97, 116, 105, 111, 110, 34, 58]
}

/// Closing brace of a record.
pub open spec fn lbl_close() -> Seq<u8> {
    seq![125u8]
}

/// The engine token of the log-structured backend.
pub open spec fn tok_rocksdb() -> Seq<u8> {
    seq![114u8, 111, 99, 107, 115, 100, 98]
}

/// The engine token of the page-structured backend.
pub open spec fn tok_sled() -> Seq<u8> {
    seq![115u8, 108, 101, 100]
}

/// The token a backend renders as.
pub open spec fn engine_token(e: EngineType) -> Seq<u8> {
    match e {
        EngineType::RocksDB => tok_rocksdb(),
        EngineType::Sled => tok_sled(),
    }
}

/// A number in ASCII decimal, most significant digit first, no padding.
pub open spec fn dec_bytes(v: nat) -> Seq<u8>
    decreases v,
{
    if v < 10 {
        seq![(48 + v) as u8]
    } else {
        dec_bytes(v / 10).push((48 + v % 10) as u8)
    }
}

/// One record of the artifact: every field of the result, in order.
#[verifier::opaque]
pub open spec fn render_record(r: BenchmarkResult) -> Seq<u8> {
    lbl_engine() + engine_token(r.engine_type) + lbl_throughput() + dec_bytes(r.throughput as nat) + lbl_operations() + dec_bytes(r.operations as nat) + lbl_duration_micros() + dec_bytes(r.duration_micros as nat) + lbl_write_p50() + dec_bytes(r.latencies.write_p50 as nat) + lbl_write_p95() + dec_bytes(r.latencies.write_p95 as nat) + lbl_write_p99() + dec_bytes(r.latencies.write_p99 as nat) + lbl_write_p999() + dec_bytes(r.latencies.write_p999 as nat) + lbl_read_p50() + dec_bytes(r.latencies.read_p50 as nat) + lbl_read_p95() + dec_bytes(r.latencies.read_p95 as nat) + lbl_read_p99() + dec_bytes(r.latencies.read_p99 as nat) + lbl_read_p999() + dec_bytes(r.latencies.read_p999 as nat) + lbl_scan_p99() + dec_bytes(r.scan_p99 as nat) + lbl_write_amplification() + dec_bytes(r.write_amplification as nat) + lbl_space_amplification() + dec_bytes(r.space_amplification as nat) + lbl_close()
}

/// The comma-joined records of a list.
pub open spec fn render_records(rs: Seq<BenchmarkResult>) -> Seq<u8>
    decreases rs.len(),
{
    if rs.len() == 0 {
        Seq::empty()
    } else if rs.len() == 1 {
        render_record(rs[0])
    } else {
        render_record(rs[0]) + seq![44u8] + render_records(rs.skip(1))
    }
}

/// The whole artifact: the records as a JSON array.
pub open spec fn render_results_spec(rs: Seq<BenchmarkResult>) -> Seq<u8> {
    seq![91u8] + render_records(rs) + seq![93u8]
}

/// A literal consumed from the front of the stream, or a refusal.
pub open spec fn expect_spec(s: Seq<u8>, lit: Seq<u8>) -> Option<Seq<u8>> {
    if s.len() >= lit.len() && s.take(lit.len() as int) == lit {
        Some(s.skip(lit.len() as int))
    } else {
        None
    }
}

/// The maximal leading digit run read as a number, refused when absent or
/// too large for a counter.
pub open spec fn parse_u64_spec(s: Seq<u8>) -> Option<(nat, Seq<u8>)> {
    let d = digit_prefix_len(s);
    if d == 0 || digits_value(s.take(d as int)) > u64::MAX {
        None
    } else {
        Some((digits_value(s.take(d as int)), s.skip(d as int)))
    }
}

/// An engine token consumed from the front of the stream.
pub open spec fn parse_engine_spec(s: Seq<u8>) -> Option<(EngineType, Seq<u8>)> {
    match expect_spec(s, tok_rocksdb()) {
        Some(r) => Some((EngineType::RocksDB, r)),
        None => match expect_spec(s, tok_sled()) {
            Some(r) => Some((EngineType::Sled, r)),
            None => None,
        },
    }
}

/// A label followed by a number.
pub open spec fn parse_field_spec(s: Seq<u8>, lbl: Seq<u8>) -> Option<(nat, Seq<u8>)> {
    match expect_spec(s, lbl) {
        Some(r) => parse_u64_spec(r),
        None => None,
    }
}

/// A full record consumed from the front of the stream.
pub open spec fn parse_record_spec(s: Seq<u8>) -> Option<(BenchmarkResult, Seq<u8>)> {
    match expect_spec(s, lbl_engine()) {
        None => None,
        Some(s0) => match parse_engine_spec(s0) {
            None => None,
            Some((engine_type, s1)) => 
                match parse_field_spec(s1, lbl_throughput()) { None => None, Some((v_throughput, s2)) => match parse_field_spec(s2, lbl_operations()) { None => None, Some((v_operations, s3)) => match parse_field_spec(s3, lbl_duration_micros()) { None => None, Some((v_duration_micros, s4)) => match parse_field_spec(s4, lbl_write_p50()) { None => None, Some((v_write_p50, s5)) => match parse_field_spec(s5, lbl_write_p95()) { None => None, Some((v_write_p95, s6)) => match parse_field_spec(s6, lbl_write_p99()) { None => None, Some((v_write_p99, s7)) => match parse_field_spec(s7, lbl_write_p999()) { None => None, Some((v_write_p999, s8)) => match parse_field_spec(s8, lbl_read_p50()) { None => None, Some((v_read_p50, s9)) => match parse_field_spec(s9, lbl_read_p95()) { None => None, Some((v_read_p95, s10)) => match parse_field_spec(s10, lbl_read_p99()) { None => None, Some((v_read_p99, s11)) => match parse_field_spec(s11, lbl_read_p999()) { None => None, Some((v_read_p999, s12)) => match parse_field_spec(s12, lbl_scan_p99()) { None => None, Some((v_scan_p99, s13)) => match parse_field_spec(s13, lbl_write_amplification()) { None => None, Some((v_write_amplification, s14)) => match parse_field_spec(s14, lbl_space_amplification()) { None => None, Some((v_space_amplification, s15)) => match expect_spec(s15, lbl_close()) { None => None, Some(s_end) => Some((BenchmarkResult { engine_type, throughput: v_throughput as u64, operations: v_operations as u64, duration_micros: v_duration_micros as u64, latencies: LatencyStats { write_p50: v_write_p50 as u64, write_p95: v_write_p95 as u64, write_p99: v_write_p99 as u64, write_p999: v_write_p999 as u64, read_p50: v_read_p50 as u64, read_p95: v_read_p95 as u64, read_p99: v_read_p99 as u64, read_p999: v_read_p999 as u64 }, scan_p99: v_scan_p99 as u64, write_amplification: v_write_amplification as u64, space_amplification: v_space_amplification as u64 }, s_end)) } } } } } } } } } } } } } } },
        },
    }
}

/// One or more comma-separated records consumed from the front of the
/// stream.
pub open spec fn parse_records_spec(s: Seq<u8>) -> Option<(Seq<BenchmarkResult>, Seq<u8>)>
    decreases s.len(),
{
    match parse_record_spec(s) {
        None => None,
        Some((r, s1)) => match expect_spec(s1, seq![44u8]) {
            Some(s2) => if s2.len() < s.len() {
                match parse_records_spec(s2) {
                    None => None,
                    Some((rest, s3)) => Some((seq![r] + rest, s3)),
                }
            } else {
                None
            },
            None => Some((seq![r], s1)),
        },
    }
}

/// The whole artifact parsed back into records: exactly a bracketed,
/// comma-separated list of records, with nothing after it.
pub open spec fn parse_results_spec(s: Seq<u8>) -> Option<Seq<BenchmarkResult>> {
    match expect_spec(s, seq![91u8]) {
        None => None,
        Some(s1) => match expect_spec(s1, seq![93u8]) {
            Some(s2) => if s2.len() == 0 {
                Some(Seq::empty())
            } else {
                None
            },
            None => match parse_records_spec(s1) {
                None => None,
                Some((rs, s2)) => match expect_spec(s2, seq![93u8]) {
                    Some(s3) => if s3.len() == 0 {
                        Some(rs)
                    } else {
                        None
                    },
                    None => None,
                },
            },
        },
    }
}

/// Concatenation of byte sequences is associative.
pub(crate) proof fn seq_assoc(a: Seq<u8>, b: Seq<u8>, c: Seq<u8>)
    ensures
        (a + b) + c == a + (b + c),
{
    assert((a + b) + c =~= a + (b + c));
}

/// Appends every byte of `src` to `out`.
pub(crate) fn push_all(out: &mut Vec<u8>, src: &Vec<u8>)
    ensures
        final(out)@ == old(out)@ + src@,
{
    let mut i: usize = 0;
    while i < src.len()
        invariant
            0 <= i <= src@.len(),
            out@ == old(out)@ + src@.take(i as int),
        decreases src@.len() - i,
    {
        out.push(src[i]);
        proof {
            assert(src@.take(i + 1) =~= src@.take(i as int).push(src@[i as int]));
            assert((old(out)@ + src@.take(i as int)).push(src@[i as int]) =~= old(out)@
                + src@.take(i + 1));
        }
        i = i + 1;
    }
    proof {
        assert(src@.take(src@.len() as int) =~= src@);
    }
}

/// Appends the decimal rendering of `v` to `out`.
pub(crate) fn push_dec(out: &mut Vec<u8>, v: u64)
    ensures
        final(out)@ == old(out)@ + dec_bytes(v as nat),
    decreases v,
{
    if v < 10 {
        out.push(48 + v as u8);
        proof {
            assert(out@ =~= old(out)@ + dec_bytes(v as nat));
        }
    } else {
        proof {
            assert(v / 10 < v) by (nonlinear_arith)
                requires
                    v >= 10,
            ;
        }
        push_dec(out, v / 10);
        let d: u8 = (v % 10) as u8;
        out.push(48 + d);
        proof {
            assert(out@ =~= old(out)@ + dec_bytes(v as nat));
        }
    }
}

/// The `lbl_engine` bytes as a vector.
fn lbl_engine_vec() -> (r: Vec<u8>)
    ensures
        r@ == lbl_engine(),
{
    let mut v: Vec<u8> = Vec::new();
    v.push(123);
    v.push(34);
    v.push(101);
    v.push(110);
    v.push(103);
    v.push(105);
    v.push(110);
    v.push(101);
    v.push(34);
    v.push(58);
    v.push(34);
    proof {
        assert(v@ =~= lbl_engine());
    }
    v
}

/// The `lbl_throughput` bytes as a vector.
fn lbl_throughput_vec() -> (r: Vec<u8>)
    ensures
        r@ == lbl_throughput(),
{
    let mut v: Vec<u8> = Vec::new();
    v.push(34);
    v.push(44);
    v.push(34);
    v.push(116);
    v.push(104);
    v.push(114);
    v.push(111);
    v.push(117);
    v.push(103);
    v.push(104);
    v.push(112);
    v.push(117);
    v.push(116);
    v.push(34);
    v.push(58);
    proof {
        assert(v@ =~= lbl_throughput());
    }
    v
}

/// The `lbl_operations` bytes as a vector.
fn lbl_operations_vec() -> (r: Vec<u8>)
    ensures
        r@ == lbl_operations(),
{
    let mut v: Vec<u8> = Vec::new();
    v.push(44);
    v.push(34);
    v.push(111);
    v.push(112);
    v.push(101);
    v.push(114);
    v.push(97);
    v.push(116);
    v.push(105);
    v.push(111);
    v.push(110);
    v.push(115);
    v.push(34);
    v.push(58);
    proof {
        assert(v@ =~= lbl_operations());
    }
    v
}

/// The `lbl_duration_micros` bytes as a vector.
fn lbl_duration_micros_vec() -> (r: Vec<u8>)
    ensures
        r@ == lbl_duration_micros(),
{
    let mut v: Vec<u8> = Vec::new();
    v.push(44);
    v.push(34);
    v.push(100);
    v.push(117);
    v.push(114);
    v.push(97);
    v.push(116);
    v.push(105);
    v.push(111);
    v.push(110);
    v.push(95);
    v.push(109);
    v.push(105);
    v.push(99);
    v.push(114);
    v.push(111);
    v.push(115);
    v.push(34);
    v.push(58);
    proof {
        assert(v@ =~= lbl_duration_micros());
    }
    v
}

/// The `lbl_write_p50` bytes as a vector.
fn lbl_write_p50_vec() -> (r: Vec<u8>)
    ensures
        r@ == lbl_write_p50(),
{
    let mut v: Vec<u8> = Vec::new();
    v.push(44);
    v.push(34);
    v.push(119);
    v.push(114);
    v.push(105);
    v.push(116);
    v.push(101);
    v.push(95);
    v.push(112);
    v.push(53);
    v.push(48);
    v.push(34);
    v.push(58);
    proof {
        assert(v@ =~= lbl_write_p50());
    }
    v
}

/// The `lbl_write_p95` bytes as a vector.
fn lbl_write_p95_vec() -> (r: Vec<u8>)
    ensures
        r@ == lbl_write_p95(),
{
    let mut v: Vec<u8> = Vec::new();
    v.push(44);
    v.push(34);
    v.push(119);
    v.push(114);
    v.push(105);
    v.push(116);
    v.push(101);
    v.push(95);
    v.push(112);
    v.push(57);
    v.push(53);
    v.push(34);
    v.push(58);
    proof {
        assert(v@ =~= lbl_write_p95());
    }
    v
}

/// The `lbl_write_p99` bytes as a vector.
fn lbl_write_p99_vec() -> (r: Vec<u8>)
    ensures
        r@ == lbl_write_p99(),
{
    let mut v: Vec<u8> = Vec::new();
    v.push(44);
    v.push(34);
    v.push(119);
    v.push(114);
    v.push(105);
    v.push(116);
    v.push(101);
    v.push(95);
    v.push(112);
    v.push(57);
    v.push(57);
    v.push(34);
    v.push(58);
    proof {
        assert(v@ =~= lbl_write_p99());
    }
    v
}

/// The `lbl_write_p999` bytes as a vector.
fn lbl_write_p999_vec() -> (r: Vec<u8>)
    ensures
        r@ == lbl_write_p999(),
{
    let mut v: Vec<u8> = Vec::new();
    v.push(44);
    v.push(34);
    v.push(119);
    v.push(114);
    v.push(105);
    v.push(116);
    v.push(101);
    v.push(95);
    v.push(112);
    v.push(57);
    v.push(57);
    v.push(57);
    v.push(34);
    v.push(58);
    proof {
        assert(v@ =~= lbl_write_p999());
    }
    v
}

/// The `lbl_read_p50` bytes as a vector.
fn lbl_read_p50_vec() -> (r: Vec<u8>)
    ensures
        r@ == lbl_read_p50(),
{
    let mut v: Vec<u8> = Vec::new();
    v.push(44);
    v.push(34);
    v.push(114);
    v.push(101);
    v.push(97);
    v.push(100);
    v.push(95);
    v.push(112);
    v.push(53);
    v.push(48);
    v.push(34);
    v.push(58);
    proof {
        assert(v@ =~= lbl_read_p50());
    }
    v
}

/// The `lbl_read_p95` bytes as a vector.
fn lbl_read_p95_vec() -> (r: Vec<u8>)
    ensures
        r@ == lbl_read_p95(),
{
    let mut v: Vec<u8> = Vec::new();
    v.push(44);
    v.push(34);
    v.push(114);
    v.push(101);
    v.push(97);
    v.push(100);
    v.push(95);
    v.push(112);
    v.push(57);
    v.push(53);
    v.push(34);
    v.push(58);
    proof {
        assert(v@ =~= lbl_read_p95());
    }
    v
}

/// The `lbl_read_p99` bytes as a vector.
fn lbl_read_p99_vec() -> (r: Vec<u8>)
    ensures
        r@ == lbl_read_p99(),
{
    let mut v: Vec<u8> = Vec::new();
    v.push(44);
    v.push(34);
    v.push(114);
    v.push(101);
    v.push(97);
    v.push(100);
    v.push(95);
    v.push(112);
    v.push(57);
    v.push(57);
    v.push(34);
    v.push(58);
    proof {
        assert(v@ =~= lbl_read_p99());
    }
    v
}

/// The `lbl_read_p999` bytes as a vector.
fn lbl_read_p999_vec() -> (r: Vec<u8>)
    ensures
        r@ == lbl_read_p999(),
{
    let mut v: Vec<u8> = Vec::new();
    v.push(44);
    v.push(34);
    v.push(114);
    v.push(101);
    v.push(97);
    v.push(100);
    v.push(95);
    v.push(112);
    v.push(57);
    v.push(57);
    v.push(57);
    v.push(34);
    v.push(58);
    proof {
        assert(v@ =~= lbl_read_p999());
    }
    v
}

/// The `lbl_scan_p99` bytes as a vector.
fn lbl_scan_p99_vec() -> (r: Vec<u8>)
    ensures
        r@ == lbl_scan_p99(),
{
    let mut v: Vec<u8> = Vec::new();
    v.push(44);
    v.push(34);
    v.push(115);
    v.push(99);
    v.push(97);
    v.push(110);
    v.push(95);
    v.push(112);
    v.push(57);
    v.push(57);
    v.push(34);
    v.push(58);
    proof {
        assert(v@ =~= lbl_scan_p99());
    }
    v
}

/// The `lbl_write_amplification` bytes as a vector.
fn lbl_write_amplification_vec() -> (r: Vec<u8>)
    ensures
        r@ == lbl_write_amplification(),
{
    let mut v: Vec<u8> = Vec::new();
    v.push(44);
    v.push(34);
    v.push(119);
    v.push(114);
    v.push(105);
    v.push(116);
    v.push(101);
    v.push(95);
    v.push(97);
    v.push(109);
    v.push(112);
    v.push(108);
    v.push(105);
    v.push(102);
    v.push(105);
    v.push(99);
    v.push(97);
    v.push(116);
    v.push(105);
    v.push(111);
    v.push(110);
    v.push(34);
    v.push(58);
    proof {
        assert(v@ =~= lbl_write_amplification());
    }
    v
}

/// The `lbl_space_amplification` bytes as a vector.
fn lbl_space_amplification_vec() -> (r: Vec<u8>)
    ensures
        r@ == lbl_space_amplification(),
{
    let mut v: Vec<u8> = Vec::new();
    v.push(44);
    v.push(34);
    v.push(115);
    v.push(112);
    v.push(97);
    v.push(99);
    v.push(101);
    v.push(95);
    v.push(97);
    v.push(109);
    v.push(112);
    v.push(108);
    v.push(105);
    v.push(102);
    v.push(105);
    v.push(99);
    v.push(97);
    v.push(116);
    v.push(105);
    v.push(111);
    v.push(110);
    v.push(34);
    v.push(58);
    proof {
        assert(v@ =~= lbl_space_amplification());
    }
    v
}

/// The `lbl_close` bytes as a vector.
fn lbl_close_vec() -> (r: Vec<u8>)
    ensures
        r@ == lbl_close(),
{
    let mut v: Vec<u8> = Vec::new();
    v.push(125);
    proof {
        assert(v@ =~= lbl_close());
    }
    v
}

/// The `rocksdb` engine token as a vector.
fn tok_rocksdb_vec() -> (r: Vec<u8>)
    ensures
        r@ == tok_rocksdb(),
{
    let mut v: Vec<u8> = Vec::new();
    v.push(114);
    v.push(111);
    v.push(99);
    v.push(107);
    v.push(115);
    v.push(100);
    v.push(98);
    proof {
        assert(v@ =~= tok_rocksdb());
    }
    v
}

/// The `sled` engine token as a vector.
fn tok_sled_vec() -> (r: Vec<u8>)
    ensures
        r@ == tok_sled(),
{
    let mut v: Vec<u8> = Vec::new();
    v.push(115);
    v.push(108);
    v.push(101);
    v.push(100);
    proof {
        assert(v@ =~= tok_sled());
    }
    v
}

/// Appends one rendered record to `out`.
fn render_record_exec(out: &mut Vec<u8>, r: &BenchmarkResult)
    ensures
        final(out)@ == old(out)@ + render_record(*r),
{
    proof {
        reveal(render_record);
    }
    let lbl = lbl_engine_vec();
    push_all(out, &lbl);
    let tok = match r.engine_type {
        EngineType::RocksDB => tok_rocksdb_vec(),
        EngineType::Sled => tok_sled_vec(),
    };
    push_all(out, &tok);
    proof {
        seq_assoc(old(out)@, lbl_engine(), engine_token(r.engine_type));
    }
    let lbl = lbl_throughput_vec();
    push_all(out, &lbl);
    proof {
        seq_assoc(old(out)@, lbl_engine() + engine_token(r.engine_type), lbl_throughput());
    }
    push_dec(out, r.throughput);
    proof {
        seq_assoc(old(out)@, lbl_engine() + engine_token(r.engine_type) + lbl_throughput(), dec_bytes(r.throughput as nat));
    }
    let lbl = lbl_operations_vec();
    push_all(out, &lbl);
    proof {
        seq_assoc(old(out)@, lbl_engine() + engine_token(r.engine_type) + lbl_throughput() + dec_bytes(r.throughput as nat), lbl_operations());
    }
    push_dec(out, r.operations);
    proof {
        seq_assoc(old(out)@, lbl_engine() + engine_token(r.engine_type) + lbl_throughput() + dec_bytes(r.throughput as nat) + lbl_operations(), dec_bytes(r.operations as nat));
    }
    let lbl = lbl_duration_micros_vec();
    push_all(out, &lbl);
    proof {
        seq_assoc(old(out)@, lbl_engine() + engine_token(r.engine_type) + lbl_throughput() + dec_bytes(r.throughput as nat) + lbl_operations() + dec_bytes(r.operations as nat), lbl_duration_micros());
    }
    push_dec(out, r.duration_micros);
    proof {
        seq_assoc(old(out)@, lbl_engine() + engine_token(r.engine_type) + lbl_throughput() + dec_bytes(r.throughput as nat) + lbl_operations() + dec_bytes(r.operations as nat) + lbl_duration_micros(), dec_bytes(r.duration_micros as nat));
    }
    let lbl = lbl_write_p50_vec();
    push_all(out, &lbl);
    proof {
        seq_assoc(old(out)@, lbl_engine() + engine_token(r.engine_type) + lbl_throughput() + dec_bytes(r.throughput as nat) + lbl_operations() + dec_bytes(r.operations as nat) + lbl_duration_micros() + dec_bytes(r.duration_micros as nat), lbl_write_p50());
    }
    push_dec(out, r.latencies.write_p50);
    proof {
        seq_assoc(old(out)@, lbl_engine() + engine_token(r.engine_type) + lbl_throughput() + dec_bytes(r.throughput as nat) + lbl_operations() + dec_bytes(r.operations as nat) + lbl_duration_micros() + dec_bytes(r.duration_micros as nat) + lbl_write_p50(), dec_bytes(r.latencies.write_p50 as nat));
    }
    let lbl = lbl_write_p95_vec();
    push_all(out, &lbl);
    proof {
        seq_assoc(old(out)@, lbl_engine() + engine_token(r.engine_type) + lbl_throughput() + dec_bytes(r.throughput as nat) + lbl_operations() + dec_bytes(r.operations as nat) + lbl_duration_micros() + dec_bytes(r.duration_micros as nat) + lbl_write_p50() + dec_bytes(r.latencies.write_p50 as nat), lbl_write_p95());
    }
    push_dec(out, r.latencies.write_p95);
    proof {
        seq_assoc(old(out)@, lbl_engine() + engine_token(r.engine_type) + lbl_throughput() + dec_bytes(r.throughput as nat) + lbl_operations() + dec_bytes(r.operations as nat) + lbl_duration_micros() + dec_bytes(r.duration_micros as nat) + lbl_write_p50() + dec_bytes(r.latencies.write_p50 as nat) + lbl_write_p95(), dec_bytes(r.latencies.write_p95 as nat));
    }
    let lbl = lbl_write_p99_vec();
    push_all(out, &lbl);
    proof {
        seq_assoc(old(out)@, lbl_engine() + engine_token(r.engine_type) + lbl_throughput() + dec_bytes(r.throughput as nat) + lbl_operations() + dec_bytes(r.operations as nat) + lbl_duration_micros() + dec_bytes(r.duration_micros as nat) + lbl_write_p50() + dec_bytes(r.latencies.write_p50 as nat) + lbl_write_p95() + dec_bytes(r.latencies.write_p95 as nat), lbl_write_p99());
    }
    push_dec(out, r.latencies.write_p99);
    proof {
        seq_assoc(old(out)@, lbl_engine() + engine_token(r.engine_type) + lbl_throughput() + dec_bytes(r.throughput as nat) + lbl_operations() + dec_bytes(r.operations as nat) + lbl_duration_micros() + dec_bytes(r.duration_micros as nat) + lbl_write_p50() + dec_bytes(r.latencies.write_p50 as nat) + lbl_write_p95() + dec_bytes(r.latencies.write_p95 as nat) + lbl_write_p99(), dec_bytes(r.latencies.write_p99 as nat));
    }
    let lbl = lbl_write_p999_vec();
    push_all(out, &lbl);
    proof {
        seq_assoc(old(out)@, lbl_engine() + engine_token(r.engine_type) + lbl_throughput() + dec_bytes(r.throughput as nat) + lbl_operations() + dec_bytes(r.operations as nat) + lbl_duration_micros() + dec_bytes(r.duration_micros as nat) + lbl_write_p50() + dec_bytes(r.latencies.write_p50 as nat) + lbl_write_p95() + dec_bytes(r.latencies.write_p95 as nat) + lbl_write_p99() + dec_bytes(r.latencies.write_p99 as nat), lbl_write_p999());
    }
    push_dec(out, r.latencies.write_p999);
    proof {
        seq_assoc(old(out)@, lbl_engine() + engine_token(r.engine_type) + lbl_throughput() + dec_bytes(r.throughput as nat) + lbl_operations() + dec_bytes(r.operations as nat) + lbl_duration_micros() + dec_bytes(r.duration_micros as nat) + lbl_write_p50() + dec_bytes(r.latencies.write_p50 as nat) + lbl_write_p95() + dec_bytes(r.latencies.write_p95 as nat) + lbl_write_p99() + dec_bytes(r.latencies.write_p99 as nat) + lbl_write_p999(), dec_bytes(r.latencies.write_p999 as nat));
    }
    let lbl = lbl_read_p50_vec();
    push_all(out, &lbl);
    proof {
        seq_assoc(old(out)@, lbl_engine() + engine_token(r.engine_type) + lbl_throughput() + dec_bytes(r.throughput as nat) + lbl_operations() + dec_bytes(r.operations as nat) + lbl_duration_micros() + dec_bytes(r.duration_micros as nat) + lbl_write_p50() + dec_bytes(r.latencies.write_p50 as nat) + lbl_write_p95() + dec_bytes(r.latencies.write_p95 as nat) + lbl_write_p99() + dec_bytes(r.latencies.write_p99 as nat) + lbl_write_p999() + dec_bytes(r.latencies.write_p999 as nat), lbl_read_p50());
    }
    push_dec(out, r.latencies.read_p50);
    proof {
        seq_assoc(old(out)@, lbl_engine() + engine_token(r.engine_type) + lbl_throughput() + dec_bytes(r.throughput as nat) + lbl_operations() + dec_bytes(r.operations as nat) + lbl_duration_micros() + dec_bytes(r.duration_micros as nat) + lbl_write_p50() + dec_bytes(r.latencies.write_p50 as nat) + lbl_write_p95() + dec_bytes(r.latencies.write_p95 as nat) + lbl_write_p99() + dec_bytes(r.latencies.write_p99 as nat) + lbl_write_p999() + dec_bytes(r.latencies.write_p999 as nat) + lbl_read_p50(), dec_bytes(r.latencies.read_p50 as nat));
    }
    let lbl = lbl_read_p95_vec();
    push_all(out, &lbl);
    proof {
        seq_assoc(old(out)@, lbl_engine() + engine_token(r.engine_type) + lbl_throughput() + dec_bytes(r.throughput as nat) + lbl_operations() + dec_bytes(r.operations as nat) + lbl_duration_micros() + dec_bytes(r.duration_micros as nat) + lbl_write_p50() + dec_bytes(r.latencies.write_p50 as nat) + lbl_write_p95() + dec_bytes(r.latencies.write_p95 as nat) + lbl_write_p99() + dec_bytes(r.latencies.write_p99 as nat) + lbl_write_p999() + dec_bytes(r.latencies.write_p999 as nat) + lbl_read_p50() + dec_bytes(r.latencies.read_p50 as nat), lbl_read_p95());
    }
    push_dec(out, r.latencies.read_p95);
    proof {
        seq_assoc(old(out)@, lbl_engine() + engine_token(r.engine_type) + lbl_throughput() + dec_bytes(r.throughput as nat) + lbl_operations() + dec_bytes(r.operations as nat) + lbl_duration_micros() + dec_bytes(r.duration_micros as nat) + lbl_write_p50() + dec_bytes(r.latencies.write_p50 as nat) + lbl_write_p95() + dec_bytes(r.latencies.write_p95 as nat) + lbl_write_p99() + dec_bytes(r.latencies.write_p99 as nat) + lbl_write_p999() + dec_bytes(r.latencies.write_p999 as nat) + lbl_read_p50() + dec_bytes(r.latencies.read_p50 as nat) + lbl_read_p95(), dec_bytes(r.latencies.read_p95 as nat));
    }
    let lbl = lbl_read_p99_vec();
    push_all(out, &lbl);
    proof {
        seq_assoc(old(out)@, lbl_engine() + engine_token(r.engine_type) + lbl_throughput() + dec_bytes(r.throughput as nat) + lbl_operations() + dec_bytes(r.operations as nat) + lbl_duration_micros() + dec_bytes(r.duration_micros as nat) + lbl_write_p50() + dec_bytes(r.latencies.write_p50 as nat) + lbl_write_p95() + dec_bytes(r.latencies.write_p95 as nat) + lbl_write_p99() + dec_bytes(r.latencies.write_p99 as nat) + lbl_write_p999() + dec_bytes(r.latencies.write_p999 as nat) + lbl_read_p50() + dec_bytes(r.latencies.read_p50 as nat) + lbl_read_p95() + dec_bytes(r.latencies.read_p95 as nat), lbl_read_p99());
    }
    push_dec(out, r.latencies.read_p99);
    proof {
        seq_assoc(old(out)@, lbl_engine() + engine_token(r.engine_type) + lbl_throughput() + dec_bytes(r.throughput as nat) + lbl_operations() + dec_bytes(r.operations as nat) + lbl_duration_micros() + dec_bytes(r.duration_micros as nat) + lbl_write_p50() + dec_bytes(r.latencies.write_p50 as nat) + lbl_write_p95() + dec_bytes(r.latencies.write_p95 as nat) + lbl_write_p99() + dec_bytes(r.latencies.write_p99 as nat) + lbl_write_p999() + dec_bytes(r.latencies.write_p999 as nat) + lbl_read_p50() + dec_bytes(r.latencies.read_p50 as nat) + lbl_read_p95() + dec_bytes(r.latencies.read_p95 as nat) + lbl_read_p99(), dec_bytes(r.latencies.read_p99 as nat));
    }
    let lbl = lbl_read_p999_vec();
    push_all(out, &lbl);
    proof {
        seq_assoc(old(out)@, lbl_engine() + engine_token(r.engine_type) + lbl_throughput() + dec_bytes(r.throughput as nat) + lbl_operations() + dec_bytes(r.operations as nat) + lbl_duration_micros() + dec_bytes(r.duration_micros as nat) + lbl_write_p50() + dec_bytes(r.latencies.write_p50 as nat) + lbl_write_p95() + dec_bytes(r.latencies.write_p95 as nat) + lbl_write_p99() + dec_bytes(r.latencies.write_p99 as nat) + lbl_write_p999() + dec_bytes(r.latencies.write_p999 as nat) + lbl_read_p50() + dec_bytes(r.latencies.read_p50 as nat) + lbl_read_p95() + dec_bytes(r.latencies.read_p95 as nat) + lbl_read_p99() + dec_bytes(r.latencies.read_p99 as nat), lbl_read_p999());
    }
    push_dec(out, r.latencies.read_p999);
    proof {
        seq_assoc(old(out)@, lbl_engine() + engine_token(r.engine_type) + lbl_throughput() + dec_bytes(r.throughput as nat) + lbl_operations() + dec_bytes(r.operations as nat) + lbl_duration_micros() + dec_bytes(r.duration_micros as nat) + lbl_write_p50() + dec_bytes(r.latencies.write_p50 as nat) + lbl_write_p95() + dec_bytes(r.latencies.write_p95 as nat) + lbl_write_p99() + dec_bytes(r.latencies.write_p99 as nat) + lbl_write_p999() + dec_bytes(r.latencies.write_p999 as nat) + lbl_read_p50() + dec_bytes(r.latencies.read_p50 as nat) + lbl_read_p95() + dec_bytes(r.latencies.read_p95 as nat) + lbl_read_p99() + dec_bytes(r.latencies.read_p99 as nat) + lbl_read_p999(), dec_bytes(r.latencies.read_p999 as nat));
    }
    let lbl = lbl_scan_p99_vec();
    push_all(out, &lbl);
    proof {
        seq_assoc(old(out)@, lbl_engine() + engine_token(r.engine_type) + lbl_throughput() + dec_bytes(r.throughput as nat) + lbl_operations() + dec_bytes(r.operations as nat) + lbl_duration_micros() + dec_bytes(r.duration_micros as nat) + lbl_write_p50() + dec_bytes(r.latencies.write_p50 as nat) + lbl_write_p95() + dec_bytes(r.latencies.write_p95 as nat) + lbl_write_p99() + dec_bytes(r.latencies.write_p99 as nat) + lbl_write_p999() + dec_bytes(r.latencies.write_p999 as nat) + lbl_read_p50() + dec_bytes(r.latencies.read_p50 as nat) + lbl_read_p95() + dec_bytes(r.latencies.read_p95 as nat) + lbl_read_p99() + dec_bytes(r.latencies.read_p99 as nat) + lbl_read_p999() + dec_bytes(r.latencies.read_p999 as nat), lbl_scan_p99());
    }
    push_dec(out, r.scan_p99);
    proof {
        seq_assoc(old(out)@, lbl_engine() + engine_token(r.engine_type) + lbl_throughput() + dec_bytes(r.throughput as nat) + lbl_operations() + dec_bytes(r.operations as nat) + lbl_duration_micros() + dec_bytes(r.duration_micros as nat) + lbl_write_p50() + dec_bytes(r.latencies.write_p50 as nat) + lbl_write_p95() + dec_bytes(r.latencies.write_p95 as nat) + lbl_write_p99() + dec_bytes(r.latencies.write_p99 as nat) + lbl_write_p999() + dec_bytes(r.latencies.write_p999 as nat) + lbl_read_p50() + dec_bytes(r.latencies.read_p50 as nat) + lbl_read_p95() + dec_bytes(r.latencies.read_p95 as nat) + lbl_read_p99() + dec_bytes(r.latencies.read_p99 as nat) + lbl_read_p999() + dec_bytes(r.latencies.read_p999 as nat) + lbl_scan_p99(), dec_bytes(r.scan_p99 as nat));
    }
    let lbl = lbl_write_amplification_vec();
    push_all(out, &lbl);
    proof {
        seq_assoc(old(out)@, lbl_engine() + engine_token(r.engine_type) + lbl_throughput() + dec_bytes(r.throughput as nat) + lbl_operations() + dec_bytes(r.operations as nat) + lbl_duration_micros() + dec_bytes(r.duration_micros as nat) + lbl_write_p50() + dec_bytes(r.latencies.write_p50 as nat) + lbl_write_p95() + dec_bytes(r.latencies.write_p95 as nat) + lbl_write_p99() + dec_bytes(r.latencies.write_p99 as nat) + lbl_write_p999() + dec_bytes(r.latencies.write_p999 as nat) + lbl_read_p50() + dec_bytes(r.latencies.read_p50 as nat) + lbl_read_p95() + dec_bytes(r.latencies.read_p95 as nat) + lbl_read_p99() + dec_bytes(r.latencies.read_p99 as nat) + lbl_read_p999() + dec_bytes(r.latencies.read_p999 as nat) + lbl_scan_p99() + dec_bytes(r.scan_p99 as nat), lbl_write_amplification());
    }
    push_dec(out, r.write_amplification);
    proof {
        seq_assoc(old(out)@, lbl_engine() + engine_token(r.engine_type) + lbl_throughput() + dec_bytes(r.throughput as nat) + lbl_operations() + dec_bytes(r.operations as nat) + lbl_duration_micros() + dec_bytes(r.duration_micros as nat) + lbl_write_p50() + dec_bytes(r.latencies.write_p50 as nat) + lbl_write_p95() + dec_bytes(r.latencies.write_p95 as nat) + lbl_write_p99() + dec_bytes(r.latencies.write_p99 as nat) + lbl_write_p999() + dec_bytes(r.latencies.write_p999 as nat) + lbl_read_p50() + dec_bytes(r.latencies.read_p50 as nat) + lbl_read_p95() + dec_bytes(r.latencies.read_p95 as nat) + lbl_read_p99() + dec_bytes(r.latencies.read_p99 as nat) + lbl_read_p999() + dec_bytes(r.latencies.read_p999 as nat) + lbl_scan_p99() + dec_bytes(r.scan_p99 as nat) + lbl_write_amplification(), dec_bytes(r.write_amplification as nat));
    }
    let lbl = lbl_space_amplification_vec();
    push_all(out, &lbl);
    proof {
        seq_assoc(old(out)@, lbl_engine() + engine_token(r.engine_type) + lbl_throughput() + dec_bytes(r.throughput as nat) + lbl_operations() + dec_bytes(r.operations as nat) + lbl_duration_micros() + dec_bytes(r.duration_micros as nat) + lbl_write_p50() + dec_bytes(r.latencies.write_p50 as nat) + lbl_write_p95() + dec_bytes(r.latencies.write_p95 as nat) + lbl_write_p99() + dec_bytes(r.latencies.write_p99 as nat) + lbl_write_p999() + dec_bytes(r.latencies.write_p999 as nat) + lbl_read_p50() + dec_bytes(r.latencies.read_p50 as nat) + lbl_read_p95() + dec_bytes(r.latencies.read_p95 as nat) + lbl_read_p99() + dec_bytes(r.latencies.read_p99 as nat) + lbl_read_p999() + dec_bytes(r.latencies.read_p999 as nat) + lbl_scan_p99() + dec_bytes(r.scan_p99 as nat) + lbl_write_amplification() + dec_bytes(r.write_amplification as nat), lbl_space_amplification());
    }
    push_dec(out, r.space_amplification);
    proof {
        seq_assoc(old(out)@, lbl_engine() + engine_token(r.engine_type) + lbl_throughput() + dec_bytes(r.throughput as nat) + lbl_operations() + dec_bytes(r.operations as nat) + lbl_duration_micros() + dec_bytes(r.duration_micros as nat) + lbl_write_p50() + dec_bytes(r.latencies.write_p50 as nat) + lbl_write_p95() + dec_bytes(r.latencies.write_p95 as nat) + lbl_write_p99() + dec_bytes(r.latencies.write_p99 as nat) + lbl_write_p999() + dec_bytes(r.latencies.write_p999 as nat) + lbl_read_p50() + dec_bytes(r.latencies.read_p50 as nat) + lbl_read_p95() + dec_bytes(r.latencies.read_p95 as nat) + lbl_read_p99() + dec_bytes(r.latencies.read_p99 as nat) + lbl_read_p999() + dec_bytes(r.latencies.read_p999 as nat) + lbl_scan_p99() + dec_bytes(r.scan_p99 as nat) + lbl_write_amplification() + dec_bytes(r.write_amplification as nat) + lbl_space_amplification(), dec_bytes(r.space_amplification as nat));
    }
    let lbl = lbl_close_vec();
    push_all(out, &lbl);
    proof {
        seq_assoc(old(out)@, lbl_engine() + engine_token(r.engine_type) + lbl_throughput() + dec_bytes(r.throughput as nat) + lbl_operations() + dec_bytes(r.operations as nat) + lbl_duration_micros() + dec_bytes(r.duration_micros as nat) + lbl_write_p50() + dec_bytes(r.latencies.write_p50 as nat) + lbl_write_p95() + dec_bytes(r.latencies.write_p95 as nat) + lbl_write_p99() + dec_bytes(r.latencies.write_p99 as nat) + lbl_write_p999() + dec_bytes(r.latencies.write_p999 as nat) + lbl_read_p50() + dec_bytes(r.latencies.read_p50 as nat) + lbl_read_p95() + dec_bytes(r.latencies.read_p95 as nat) + lbl_read_p99() + dec_bytes(r.latencies.read_p99 as nat) + lbl_read_p999() + dec_bytes(r.latencies.read_p999 as nat) + lbl_scan_p99() + dec_bytes(r.scan_p99 as nat) + lbl_write_amplification() + dec_bytes(r.write_amplification as nat) + lbl_space_amplification() + dec_bytes(r.space_amplification as nat), lbl_close());
    }
}

/// Appending one more record to a non-empty list extends the rendering by
/// a comma and the new record.
proof fn lemma_render_records_snoc(rs: Seq<BenchmarkResult>, r: BenchmarkResult)
    requires
        rs.len() >= 1,
    ensures
        render_records(rs.push(r)) == render_records(rs) + seq![44u8] + render_record(r),
    decreases rs.len(),
{
    let e = rs.push(r);
    if rs.len() == 1 {
        assert(e.len() == 2);
        assert(e[0] == rs[0]);
        assert(e.skip(1) =~= seq![r]);
        assert(render_records(e.skip(1)) == render_record(r));
    } else {
        assert(e.skip(1) =~= rs.skip(1).push(r));
        lemma_render_records_snoc(rs.skip(1), r);
        assert(e[0] == rs[0]);
        seq_assoc(render_record(rs[0]), seq![44u8], render_records(rs.skip(1)) + seq![44u8] + render_record(r));
        seq_assoc(render_record(rs[0]), seq![44u8], render_records(rs.skip(1)));
        seq_assoc(render_record(rs[0]) + seq![44u8] + render_records(rs.skip(1)), seq![44u8], render_record(r));
        seq_assoc(render_record(rs[0]) + seq![44u8], render_records(rs.skip(1)), seq![44u8]);
        seq_assoc(render_record(rs[0]) + seq![44u8], render_records(rs.skip(1)) + seq![44u8], render_record(r));
        seq_assoc(render_record(rs[0]) + seq![44u8], render_records(rs.skip(1)), seq![44u8] + render_record(r));
        assert(render_records(e) =~= render_records(rs) + seq![44u8] + render_record(r));
    }
}

/// Renders a list of results as the artifact: a canonical JSON array with
/// every field in a fixed order.
pub fn render_results(results: &Vec<BenchmarkResult>) -> (r: Vec<u8>)
    ensures
        r@ == render_results_spec(results@),
{
    let mut out: Vec<u8> = Vec::new();
    out.push(91);
    proof {
        assert(out@ =~= seq![91u8] + render_records(results@.take(0)));
    }
    let mut i: usize = 0;
    while i < results.len()
        invariant
            0 <= i <= results@.len(),
            out@ == seq![91u8] + render_records(results@.take(i as int)),
        decreases results@.len() - i,
    {
        if i > 0 {
            out.push(44);
            proof {
                assert(out@ =~= (seq![91u8] + render_records(results@.take(i as int)))
                    + seq![44u8]);
            }
        }
        render_record_exec(&mut out, &results[i]);
        proof {
            let taken = results@.take(i as int);
            let rec = results@[i as int];
            assert(results@.take(i + 1) =~= taken.push(rec));
            if i == 0 {
                assert(taken.len() == 0);
                assert(render_records(results@.take(1)) == render_record(results@[0]));
                assert(out@ =~= seq![91u8] + render_records(results@.take(1)));
            } else {
                lemma_render_records_snoc(taken, rec);
                seq_assoc(seq![91u8], render_records(taken), seq![44u8]);
                seq_assoc(seq![91u8] + render_records(taken), seq![44u8], render_record(rec));
                seq_assoc(seq![91u8], render_records(taken) + seq![44u8], render_record(rec));
                assert(out@ =~= seq![91u8] + render_records(results@.take(i + 1)));
            }
        }
        i = i + 1;
    }
    out.push(93);
    proof {
        assert(results@.take(results@.len() as int) =~= results@);
        assert(out@ =~= (seq![91u8] + render_records(results@)) + seq![93u8]);
        seq_assoc(seq![91u8], render_records(results@), seq![93u8]);
    }
    out
}

/// A decimal rendering is a non-empty run of digit bytes.
proof fn lemma_dec_bytes_wf(v: nat)
    ensures
        dec_bytes(v).len() >= 1,
        forall|i: int| 0 <= i < dec_bytes(v).len() ==> is_digit_byte(dec_bytes(v)[i]),
    decreases v,
{
    if v < 10 {
    } else {
        lemma_dec_bytes_wf(v / 10);
        let d = dec_bytes(v);
        let p = dec_bytes(v / 10);
        assert forall|i: int| 0 <= i < d.len() implies is_digit_byte(d[i]) by {
            if i < p.len() {
                assert(d[i] == p[i]);
            } else {
                assert(d[i] == (48 + v % 10) as u8);
            }
        }
    }
}

/// Reading a decimal rendering back gives the number it renders.
proof fn lemma_dec_bytes_value(v: nat)
    ensures
        digits_value(dec_bytes(v)) == v,
    decreases v,
{
    if v < 10 {
        assert(dec_bytes(v).drop_last() =~= Seq::<u8>::empty());
        assert(digits_value(Seq::<u8>::empty()) == 0);
        assert(dec_bytes(v).last() == (48 + v) as u8);
    } else {
        lemma_dec_bytes_value(v / 10);
        let d = dec_bytes(v);
        assert(d.drop_last() =~= dec_bytes(v / 10));
        assert(d.last() == (48 + v % 10) as u8);
        vstd::arithmetic::div_mod::lemma_fundamental_div_mod(v as int, 10);
    }
}

/// A rendered number followed by a non-digit parses back to itself.
proof fn lemma_parse_u64_round(v: nat, rest: Seq<u8>)
    requires
        v <= u64::MAX,
        rest.len() == 0 || !is_digit_byte(rest[0]),
    ensures
        parse_u64_spec(dec_bytes(v) + rest) == Some((v, rest)),
{
    let s = dec_bytes(v) + rest;
    let n = dec_bytes(v).len() as int;
    lemma_dec_bytes_wf(v);
    lemma_dec_bytes_value(v);
    assert forall|j: int| 0 <= j < n implies is_digit_byte(s[j]) by {
        assert(s[j] == dec_bytes(v)[j]);
    }
    if n < s.len() {
        assert(s[n] == rest[0]);
    }
    lemma_digit_prefix_len_from_scan(s, n);
    assert(s.take(n) =~= dec_bytes(v));
    assert(s.skip(n) =~= rest);
}

/// A literal at the front of the stream is consumed exactly.
proof fn lemma_expect_round(lit: Seq<u8>, rest: Seq<u8>)
    ensures
        expect_spec(lit + rest, lit) == Some(rest),
{
    let s = lit + rest;
    assert(s.take(lit.len() as int) =~= lit);
    assert(s.skip(lit.len() as int) =~= rest);
}

/// A rendered engine token parses back to its engine.
proof fn lemma_parse_engine_round(e: EngineType, rest: Seq<u8>)
    ensures
        parse_engine_spec(engine_token(e) + rest) == Some((e, rest)),
{
    match e {
        EngineType::RocksDB => {
            lemma_expect_round(tok_rocksdb(), rest);
        },
        EngineType::Sled => {
            let s = tok_sled() + rest;
            if expect_spec(s, tok_rocksdb()) is Some {
                assert(s.take(tok_rocksdb().len() as int) == tok_rocksdb());
                assert(s.take(tok_rocksdb().len() as int)[0] == s[0]);
                assert(s[0] == tok_sled()[0]);
                assert(false);
            }
            lemma_expect_round(tok_sled(), rest);
        },
    }
}

/// A rendered label-and-number field parses back to its number.
proof fn lemma_parse_field_round(lbl: Seq<u8>, v: nat, rest: Seq<u8>)
    requires
        v <= u64::MAX,
        rest.len() == 0 || !is_digit_byte(rest[0]),
    ensures
        parse_field_spec(lbl + (dec_bytes(v) + rest), lbl) == Some((v, rest)),
{
    lemma_expect_round(lbl, dec_bytes(v) + rest);
    lemma_parse_u64_round(v, rest);
}

/// A rendered record with a continuation, rewritten so each parse step
/// sees its own prefix at the front.
#[verifier::rlimit(100)]
proof fn lemma_record_reassoc(r: BenchmarkResult, rest: Seq<u8>)
    ensures
        render_record(r) + rest == lbl_engine() + (engine_token(r.engine_type) + (lbl_throughput() + (dec_bytes(r.throughput as nat) + (lbl_operations() + (dec_bytes(r.operations as nat) + (lbl_duration_micros() + (dec_bytes(r.duration_micros as nat) + (lbl_write_p50() + (dec_bytes(r.latencies.write_p50 as nat) + (lbl_write_p95() + (dec_bytes(r.latencies.write_p95 as nat) + (lbl_write_p99() + (dec_bytes(r.latencies.write_p99 as nat) + (lbl_write_p999() + (dec_bytes(r.latencies.write_p999 as nat) + (lbl_read_p50() + (dec_bytes(r.latencies.read_p50 as nat) + (lbl_read_p95() + (dec_bytes(r.latencies.read_p95 as nat) + (lbl_read_p99() + (dec_bytes(r.latencies.read_p99 as nat) + (lbl_read_p999() + (dec_bytes(r.latencies.read_p999 as nat) + (lbl_scan_p99() + (dec_bytes(r.scan_p99 as nat) + (lbl_write_amplification() + (dec_bytes(r.write_amplification as nat) + (lbl_space_amplification() + (dec_bytes(r.space_amplification as nat) + (lbl_close() + (rest))))))))))))))))))))))))))))))),
{
    reveal(render_record);
    seq_assoc(lbl_engine() + engine_token(r.engine_type) + lbl_throughput() + dec_bytes(r.throughput as nat) + lbl_operations() + dec_bytes(r.operations as nat) + lbl_duration_micros() + dec_bytes(r.duration_micros as nat) + lbl_write_p50() + dec_bytes(r.latencies.write_p50 as nat) + lbl_write_p95() + dec_bytes(r.latencies.write_p95 as nat) + lbl_write_p99() + dec_bytes(r.latencies.write_p99 as nat) + lbl_write_p999() + dec_bytes(r.latencies.write_p999 as nat) + lbl_read_p50() + dec_bytes(r.latencies.read_p50 as nat) + lbl_read_p95() + dec_bytes(r.latencies.read_p95 as nat) + lbl_read_p99() + dec_bytes(r.latencies.read_p99 as nat) + lbl_read_p999() + dec_bytes(r.latencies.read_p999 as nat) + lbl_scan_p99() + dec_bytes(r.scan_p99 as nat) + lbl_write_amplification() + dec_bytes(r.write_amplification as nat) + lbl_space_amplification() + dec_bytes(r.space_amplification as nat), lbl_close(), rest);
    seq_assoc(lbl_engine() + engine_token(r.engine_type) + lbl_throughput() + dec_bytes(r.throughput as nat) + lbl_operations() + dec_bytes(r.operations as nat) + lbl_duration_micros() + dec_bytes(r.duration_micros as nat) + lbl_write_p50() + dec_bytes(r.latencies.write_p50 as nat) + lbl_write_p95() + dec_bytes(r.latencies.write_p95 as nat) + lbl_write_p99() + dec_bytes(r.latencies.write_p99 as nat) + lbl_write_p999() + dec_bytes(r.latencies.write_p999 as nat) + lbl_read_p50() + dec_bytes(r.latencies.read_p50 as nat) + lbl_read_p95() + dec_bytes(r.latencies.read_p95 as nat) + lbl_read_p99() + dec_bytes(r.latencies.read_p99 as nat) + lbl_read_p999() + dec_bytes(r.latencies.read_p999 as nat) + lbl_scan_p99() + dec_bytes(r.scan_p99 as nat) + lbl_write_amplification() + dec_bytes(r.write_amplification as nat) + lbl_space_amplification(), dec_bytes(r.space_amplification as nat), lbl_close() + (rest));
    seq_assoc(lbl_engine() + engine_token(r.engine_type) + lbl_throughput() + dec_bytes(r.throughput as nat) + lbl_operations() + dec_bytes(r.operations as nat) + lbl_duration_micros() + dec_bytes(r.duration_micros as nat) + lbl_write_p50() + dec_bytes(r.latencies.write_p50 as nat) + lbl_write_p95() + dec_bytes(r.latencies.write_p95 as nat) + lbl_write_p99() + dec_bytes(r.latencies.write_p99 as nat) + lbl_write_p999() + dec_bytes(r.latencies.write_p999 as nat) + lbl_read_p50() + dec_bytes(r.latencies.read_p50 as nat) + lbl_read_p95() + dec_bytes(r.latencies.read_p95 as nat) + lbl_read_p99() + dec_bytes(r.latencies.read_p99 as nat) + lbl_read_p999() + dec_bytes(r.latencies.read_p999 as nat) + lbl_scan_p99() + dec_bytes(r.scan_p99 as nat) + lbl_write_amplification() + dec_bytes(r.write_amplification as nat), lbl_space_amplification(), dec_bytes(r.space_amplification as nat) + (lbl_close() + (rest)));
    seq_assoc(lbl_engine() + engine_token(r.engine_type) + lbl_throughput() + dec_bytes(r.throughput as nat) + lbl_operations() + dec_bytes(r.operations as nat) + lbl_duration_micros() + dec_bytes(r.duration_micros as nat) + lbl_write_p50() + dec_bytes(r.latencies.write_p50 as nat) + lbl_write_p95() + dec_bytes(r.latencies.write_p95 as nat) + lbl_write_p99() + dec_bytes(r.latencies.write_p99 as nat) + lbl_write_p999() + dec_bytes(r.latencies.write_p999 as nat) + lbl_read_p50() + dec_bytes(r.latencies.read_p50 as nat) + lbl_read_p95() + dec_bytes(r.latencies.read_p95 as nat) + lbl_read_p99() + dec_bytes(r.latencies.read_p99 as nat) + lbl_read_p999() + dec_bytes(r.latencies.read_p999 as nat) + lbl_scan_p99() + dec_bytes(r.scan_p99 as nat) + lbl_write_amplification(), dec_bytes(r.write_amplification as nat), lbl_space_amplification() + (dec_bytes(r.space_amplification as nat) + (lbl_close() + (rest))));
    seq_assoc(lbl_engine() + engine_token(r.engine_type) + lbl_throughput() + dec_bytes(r.throughput as nat) + lbl_operations() + dec_bytes(r.operations as nat) + lbl_duration_micros() + dec_bytes(r.duration_micros as nat) + lbl_write_p50() + dec_bytes(r.latencies.write_p50 as nat) + lbl_write_p95() + dec_bytes(r.latencies.write_p95 as nat) + lbl_write_p99() + dec_bytes(r.latencies.write_p99 as nat) + lbl_write_p999() + dec_bytes(r.latencies.write_p999 as nat) + lbl_read_p50() + dec_bytes(r.latencies.read_p50 as nat) + lbl_read_p95() + dec_bytes(r.latencies.read_p95 as nat) + lbl_read_p99() + dec_bytes(r.latencies.read_p99 as nat) + lbl_read_p999() + dec_bytes(r.latencies.read_p999 as nat) + lbl_scan_p99() + dec_bytes(r.scan_p99 as nat), lbl_write_amplification(), dec_bytes(r.write_amplification as nat) + (lbl_space_amplification() + (dec_bytes(r.space_amplification as nat) + (lbl_close() + (rest)))));
    seq_assoc(lbl_engine() + engine_token(r.engine_type) + lbl_throughput() + dec_bytes(r.throughput as nat) + lbl_operations() + dec_bytes(r.operations as nat) + lbl_duration_micros() + dec_bytes(r.duration_micros as nat) + lbl_write_p50() + dec_bytes(r.latencies.write_p50 as nat) + lbl_write_p95() + dec_bytes(r.latencies.write_p95 as nat) + lbl_write_p99() + dec_bytes(r.latencies.write_p99 as nat) + lbl_write_p999() + dec_bytes(r.latencies.write_p999 as nat) + lbl_read_p50() + dec_bytes(r.latencies.read_p50 as nat) + lbl_read_p95() + dec_bytes(r.latencies.read_p95 as nat) + lbl_read_p99() + dec_bytes(r.latencies.read_p99 as nat) + lbl_read_p999() + dec_bytes(r.latencies.read_p999 as nat) + lbl_scan_p99(), dec_bytes(r.scan_p99 as nat), lbl_write_amplification() + (dec_bytes(r.write_amplification as nat) + (lbl_space_amplification() + (dec_bytes(r.space_amplification as nat) + (lbl_close() + (rest))))));
    seq_assoc(lbl_engine() + engine_token(r.engine_type) + lbl_throughput() + dec_bytes(r.throughput as nat) + lbl_operations() + dec_bytes(r.operations as nat) + lbl_duration_micros() + dec_bytes(r.duration_micros as nat) + lbl_write_p50() + dec_bytes(r.latencies.write_p50 as nat) + lbl_write_p95() + dec_bytes(r.latencies.write_p95 as nat) + lbl_write_p99() + dec_bytes(r.latencies.write_p99 as nat) + lbl_write_p999() + dec_bytes(r.latencies.write_p999 as nat) + lbl_read_p50() + dec_bytes(r.latencies.read_p50 as nat) + lbl_read_p95() + dec_bytes(r.latencies.read_p95 as nat) + lbl_read_p99() + dec_bytes(r.latencies.read_p99 as nat) + lbl_read_p999() + dec_bytes(r.latencies.read_p999 as nat), lbl_scan_p99(), dec_bytes(r.scan_p99 as nat) + (lbl_write_amplification() + (dec_bytes(r.write_amplification as nat) + (lbl_space_amplification() + (dec_bytes(r.space_amplification as nat) + (lbl_close() + (rest)))))));
    seq_assoc(lbl_engine() + engine_token(r.engine_type) + lbl_throughput() + dec_bytes(r.throughput as nat) + lbl_operations() + dec_bytes(r.operations as nat) + lbl_duration_micros() + dec_bytes(r.duration_micros as nat) + lbl_write_p50() + dec_bytes(r.latencies.write_p50 as nat) + lbl_write_p95() + dec_bytes(r.latencies.write_p95 as nat) + lbl_write_p99() + dec_bytes(r.latencies.write_p99 as nat) + lbl_write_p999() + dec_bytes(r.latencies.write_p999 as nat) + lbl_read_p50() + dec_bytes(r.latencies.read_p50 as nat) + lbl_read_p95() + dec_bytes(r.latencies.read_p95 as nat) + lbl_read_p99() + dec_bytes(r.latencies.read_p99 as nat) + lbl_read_p999(), dec_bytes(r.latencies.read_p999 as nat), lbl_scan_p99() + (dec_bytes(r.scan_p99 as nat) + (lbl_write_amplification() + (dec_bytes(r.write_amplification as nat) + (lbl_space_amplification() + (dec_bytes(r.space_amplification as nat) + (lbl_close() + (rest))))))));
    seq_assoc(lbl_engine() + engine_token(r.engine_type) + lbl_throughput() + dec_bytes(r.throughput as nat) + lbl_operations() + dec_bytes(r.operations as nat) + lbl_duration_micros() + dec_bytes(r.duration_micros as nat) + lbl_write_p50() + dec_bytes(r.latencies.write_p50 as nat) + lbl_write_p95() + dec_bytes(r.latencies.write_p95 as nat) + lbl_write_p99() + dec_bytes(r.latencies.write_p99 as nat) + lbl_write_p999() + dec_bytes(r.latencies.write_p999 as nat) + lbl_read_p50() + dec_bytes(r.latencies.read_p50 as nat) + lbl_read_p95() + dec_bytes(r.latencies.read_p95 as nat) + lbl_read_p99() + dec_bytes(r.latencies.read_p99 as nat), lbl_read_p999(), dec_bytes(r.latencies.read_p999 as nat) + (lbl_scan_p99() + (dec_bytes(r.scan_p99 as nat) + (lbl_write_amplification() + (dec_bytes(r.write_amplification as nat) + (lbl_space_amplification() + (dec_bytes(r.space_amplification as nat) + (lbl_close() + (rest)))))))));
    seq_assoc(lbl_engine() + engine_token(r.engine_type) + lbl_throughput() + dec_bytes(r.throughput as nat) + lbl_operations() + dec_bytes(r.operations as nat) + lbl_duration_micros() + dec_bytes(r.duration_micros as nat) + lbl_write_p50() + dec_bytes(r.latencies.write_p50 as nat) + lbl_write_p95() + dec_bytes(r.latencies.write_p95 as nat) + lbl_write_p99() + dec_bytes(r.latencies.write_p99 as nat) + lbl_write_p999() + dec_bytes(r.latencies.write_p999 as nat) + lbl_read_p50() + dec_bytes(r.latencies.read_p50 as nat) + lbl_read_p95() + dec_bytes(r.latencies.read_p95 as nat) + lbl_read_p99(), dec_bytes(r.latencies.read_p99 as nat), lbl_read_p999() + (dec_bytes(r.latencies.read_p999 as nat) + (lbl_scan_p99() + (dec_bytes(r.scan_p99 as nat) + (lbl_write_amplification() + (dec_bytes(r.write_amplification as nat) + (lbl_space_amplification() + (dec_bytes(r.space_amplification as nat) + (lbl_close() + (rest))))))))));
    seq_assoc(lbl_engine() + engine_token(r.engine_type) + lbl_throughput() + dec_bytes(r.throughput as nat) + lbl_operations() + dec_bytes(r.operations as nat) + lbl_duration_micros() + dec_bytes(r.duration_micros as nat) + lbl_write_p50() + dec_bytes(r.latencies.write_p50 as nat) + lbl_write_p95() + dec_bytes(r.latencies.write_p95 as nat) + lbl_write_p99() + dec_bytes(r.latencies.write_p99 as nat) + lbl_write_p999() + dec_bytes(r.latencies.write_p999 as nat) + lbl_read_p50() + dec_bytes(r.latencies.read_p50 as nat) + lbl_read_p95() + dec_bytes(r.latencies.read_p95 as nat), lbl_read_p99(), dec_bytes(r.latencies.read_p99 as nat) + (lbl_read_p999() + (dec_bytes(r.latencies.read_p999 as nat) + (lbl_scan_p99() + (dec_bytes(r.scan_p99 as nat) + (lbl_write_amplification() + (dec_bytes(r.write_amplification as nat) + (lbl_space_amplification() + (dec_bytes(r.space_amplification as nat) + (lbl_close() + (rest)))))))))));
    seq_assoc(lbl_engine() + engine_token(r.engine_type) + lbl_throughput() + dec_bytes(r.throughput as nat) + lbl_operations() + dec_bytes(r.operations as nat) + lbl_duration_micros() + dec_bytes(r.duration_micros as nat) + lbl_write_p50() + dec_bytes(r.latencies.write_p50 as nat) + lbl_write_p95() + dec_bytes(r.latencies.write_p95 as nat) + lbl_write_p99() + dec_bytes(r.latencies.write_p99 as nat) + lbl_write_p999() + dec_bytes(r.latencies.write_p999 as nat) + lbl_read_p50() + dec_bytes(r.latencies.read_p50 as nat) + lbl_read_p95(), dec_bytes(r.latencies.read_p95 as nat), lbl_read_p99() + (dec_bytes(r.latencies.read_p99 as nat) + (lbl_read_p999() + (dec_bytes(r.latencies.read_p999 as nat) + (lbl_scan_p99() + (dec_bytes(r.scan_p99 as nat) + (lbl_write_amplification() + (dec_bytes(r.write_amplification as nat) + (lbl_space_amplification() + (dec_bytes(r.space_amplification as nat) + (lbl_close() + (rest))))))))))));
    seq_assoc(lbl_engine() + engine_token(r.engine_type) + lbl_throughput() + dec_bytes(r.throughput as nat) + lbl_operations() + dec_bytes(r.operations as nat) + lbl_duration_micros() + dec_bytes(r.duration_micros as nat) + lbl_write_p50() + dec_bytes(r.latencies.write_p50 as nat) + lbl_write_p95() + dec_bytes(r.latencies.write_p95 as nat) + lbl_write_p99() + dec_bytes(r.latencies.write_p99 as nat) + lbl_write_p999() + dec_bytes(r.latencies.write_p999 as nat) + lbl_read_p50() + dec_bytes(r.latencies.read_p50 as nat), lbl_read_p95(), dec_bytes(r.latencies.read_p95 as nat) + (lbl_read_p99() + (dec_bytes(r.latencies.read_p99 as nat) + (lbl_read_p999() + (dec_bytes(r.latencies.read_p999 as nat) + (lbl_scan_p99() + (dec_bytes(r.scan_p99 as nat) + (lbl_write_amplification() + (dec_bytes(r.write_amplification as nat) + (lbl_space_amplification() + (dec_bytes(r.space_amplification as nat) + (lbl_close() + (rest)))))))))))));
    seq_assoc(lbl_engine() + engine_token(r.engine_type) + lbl_throughput() + dec_bytes(r.throughput as nat) + lbl_operations() + dec_bytes(r.operations as nat) + lbl_duration_micros() + dec_bytes(r.duration_micros as nat) + lbl_write_p50() + dec_bytes(r.latencies.write_p50 as nat) + lbl_write_p95() + dec_bytes(r.latencies.write_p95 as nat) + lbl_write_p99() + dec_bytes(r.latencies.write_p99 as nat) + lbl_write_p999() + dec_bytes(r.latencies.write_p999 as nat) + lbl_read_p50(), dec_bytes(r.latencies.read_p50 as nat), lbl_read_p95() + (dec_bytes(r.latencies.read_p95 as nat) + (lbl_read_p99() + (dec_bytes(r.latencies.read_p99 as nat) + (lbl_read_p999() + (dec_bytes(r.latencies.read_p999 as nat) + (lbl_scan_p99() + (dec_bytes(r.scan_p99 as nat) + (lbl_write_amplification() + (dec_bytes(r.write_amplification as nat) + (lbl_space_amplification() + (dec_bytes(r.space_amplification as nat) + (lbl_close() + (rest))))))))))))));
    seq_assoc(lbl_engine() + engine_token(r.engine_type) + lbl_throughput() + dec_bytes(r.throughput as nat) + lbl_operations() + dec_bytes(r.operations as nat) + lbl_duration_micros() + dec_bytes(r.duration_micros as nat) + lbl_write_p50() + dec_bytes(r.latencies.write_p50 as nat) + lbl_write_p95() + dec_bytes(r.latencies.write_p95 as nat) + lbl_write_p99() + dec_bytes(r.latencies.write_p99 as nat) + lbl_write_p999() + dec_bytes(r.latencies.write_p999 as nat), lbl_read_p50(), dec_bytes(r.latencies.read_p50 as nat) + (lbl_read_p95() + (dec_bytes(r.latencies.read_p95 as nat) + (lbl_read_p99() + (dec_bytes(r.latencies.read_p99 as nat) + (lbl_read_p999() + (dec_bytes(r.latencies.read_p999 as nat) + (lbl_scan_p99() + (dec_bytes(r.scan_p99 as nat) + (lbl_write_amplification() + (dec_bytes(r.write_amplification as nat) + (lbl_space_amplification() + (dec_bytes(r.space_amplification as nat) + (lbl_close() + (rest)))))))))))))));
    seq_assoc(lbl_engine() + engine_token(r.engine_type) + lbl_throughput() + dec_bytes(r.throughput as nat) + lbl_operations() + dec_bytes(r.operations as nat) + lbl_duration_micros() + dec_bytes(r.duration_micros as nat) + lbl_write_p50() + dec_bytes(r.latencies.write_p50 as nat) + lbl_write_p95() + dec_bytes(r.latencies.write_p95 as nat) + lbl_write_p99() + dec_bytes(r.latencies.write_p99 as nat) + lbl_write_p999(), dec_bytes(r.latencies.write_p999 as nat), lbl_read_p50() + (dec_bytes(r.latencies.read_p50 as nat) + (lbl_read_p95() + (dec_bytes(r.latencies.read_p95 as nat) + (lbl_read_p99() + (dec_bytes(r.latencies.read_p99 as nat) + (lbl_read_p999() + (dec_bytes(r.latencies.read_p999 as nat) + (lbl_scan_p99() + (dec_bytes(r.scan_p99 as nat) + (lbl_write_amplification() + (dec_bytes(r.write_amplification as nat) + (lbl_space_amplification() + (dec_bytes(r.space_amplification as nat) + (lbl_close() + (rest))))))))))))))));
    seq_assoc(lbl_engine() + engine_token(r.engine_type) + lbl_throughput() + dec_bytes(r.throughput as nat) + lbl_operations() + dec_bytes(r.operations as nat) + lbl_duration_micros() + dec_bytes(r.duration_micros as nat) + lbl_write_p50() + dec_bytes(r.latencies.write_p50 as nat) + lbl_write_p95() + dec_bytes(r.latencies.write_p95 as nat) + lbl_write_p99() + dec_bytes(r.latencies.write_p99 as nat), lbl_write_p999(), dec_bytes(r.latencies.write_p999 as nat) + (lbl_read_p50() + (dec_bytes(r.latencies.read_p50 as nat) + (lbl_read_p95() + (dec_bytes(r.latencies.read_p95 as nat) + (lbl_read_p99() + (dec_bytes(r.latencies.read_p99 as nat) + (lbl_read_p999() + (dec_bytes(r.latencies.read_p999 as nat) + (lbl_scan_p99() + (dec_bytes(r.scan_p99 as nat) + (lbl_write_amplification() + (dec_bytes(r.write_amplification as nat) + (lbl_space_amplification() + (dec_bytes(r.space_amplification as nat) + (lbl_close() + (rest)))))))))))))))));
    seq_assoc(lbl_engine() + engine_token(r.engine_type) + lbl_throughput() + dec_bytes(r.throughput as nat) + lbl_operations() + dec_bytes(r.operations as nat) + lbl_duration_micros() + dec_bytes(r.duration_micros as nat) + lbl_write_p50() + dec_bytes(r.latencies.write_p50 as nat) + lbl_write_p95() + dec_bytes(r.latencies.write_p95 as nat) + lbl_write_p99(), dec_bytes(r.latencies.write_p99 as nat), lbl_write_p999() + (dec_bytes(r.latencies.write_p999 as nat) + (lbl_read_p50() + (dec_bytes(r.latencies.read_p50 as nat) + (lbl_read_p95() + (dec_bytes(r.latencies.read_p95 as nat) + (lbl_read_p99() + (dec_bytes(r.latencies.read_p99 as nat) + (lbl_read_p999() + (dec_bytes(r.latencies.read_p999 as nat) + (lbl_scan_p99() + (dec_bytes(r.scan_p99 as nat) + (lbl_write_amplification() + (dec_bytes(r.write_amplification as nat) + (lbl_space_amplification() + (dec_bytes(r.space_amplification as nat) + (lbl_close() + (rest))))))))))))))))));
    seq_assoc(lbl_engine() + engine_token(r.engine_type) + lbl_throughput() + dec_bytes(r.throughput as nat) + lbl_operations() + dec_bytes(r.operations as nat) + lbl_duration_micros() + dec_bytes(r.duration_micros as nat) + lbl_write_p50() + dec_bytes(r.latencies.write_p50 as nat) + lbl_write_p95() + dec_bytes(r.latencies.write_p95 as nat), lbl_write_p99(), dec_bytes(r.latencies.write_p99 as nat) + (lbl_write_p999() + (dec_bytes(r.latencies.write_p999 as nat) + (lbl_read_p50() + (dec_bytes(r.latencies.read_p50 as nat) + (lbl_read_p95() + (dec_bytes(r.latencies.read_p95 as nat) + (lbl_read_p99() + (dec_bytes(r.latencies.read_p99 as nat) + (lbl_read_p999() + (dec_bytes(r.latencies.read_p999 as nat) + (lbl_scan_p99() + (dec_bytes(r.scan_p99 as nat) + (lbl_write_amplification() + (dec_bytes(r.write_amplification as nat) + (lbl_space_amplification() + (dec_bytes(r.space_amplification as nat) + (lbl_close() + (rest)))))))))))))))))));
    seq_assoc(lbl_engine() + engine_token(r.engine_type) + lbl_throughput() + dec_bytes(r.throughput as nat) + lbl_operations() + dec_bytes(r.operations as nat) + lbl_duration_micros() + dec_bytes(r.duration_micros as nat) + lbl_write_p50() + dec_bytes(r.latencies.write_p50 as nat) + lbl_write_p95(), dec_bytes(r.latencies.write_p95 as nat), lbl_write_p99() + (dec_bytes(r.latencies.write_p99 as nat) + (lbl_write_p999() + (dec_bytes(r.latencies.write_p999 as nat) + (lbl_read_p50() + (dec_bytes(r.latencies.read_p50 as nat) + (lbl_read_p95() + (dec_bytes(r.latencies.read_p95 as nat) + (lbl_read_p99() + (dec_bytes(r.latencies.read_p99 as nat) + (lbl_read_p999() + (dec_bytes(r.latencies.read_p999 as nat) + (lbl_scan_p99() + (dec_bytes(r.scan_p99 as nat) + (lbl_write_amplification() + (dec_bytes(r.write_amplification as nat) + (lbl_space_amplification() + (dec_bytes(r.space_amplification as nat) + (lbl_close() + (rest))))))))))))))))))));
    seq_assoc(lbl_engine() + engine_token(r.engine_type) + lbl_throughput() + dec_bytes(r.throughput as nat) + lbl_operations() + dec_bytes(r.operations as nat) + lbl_duration_micros() + dec_bytes(r.duration_micros as nat) + lbl_write_p50() + dec_bytes(r.latencies.write_p50 as nat), lbl_write_p95(), dec_bytes(r.latencies.write_p95 as nat) + (lbl_write_p99() + (dec_bytes(r.latencies.write_p99 as nat) + (lbl_write_p999() + (dec_bytes(r.latencies.write_p999 as nat) + (lbl_read_p50() + (dec_bytes(r.latencies.read_p50 as nat) + (lbl_read_p95() + (dec_bytes(r.latencies.read_p95 as nat) + (lbl_read_p99() + (dec_bytes(r.latencies.read_p99 as nat) + (lbl_read_p999() + (dec_bytes(r.latencies.read_p999 as nat) + (lbl_scan_p99() + (dec_bytes(r.scan_p99 as nat) + (lbl_write_amplification() + (dec_bytes(r.write_amplification as nat) + (lbl_space_amplification() + (dec_bytes(r.space_amplification as nat) + (lbl_close() + (rest)))))))))))))))))))));
    seq_assoc(lbl_engine() + engine_token(r.engine_type) + lbl_throughput() + dec_bytes(r.throughput as nat) + lbl_operations() + dec_bytes(r.operations as nat) + lbl_duration_micros() + dec_bytes(r.duration_micros as nat) + lbl_write_p50(), dec_bytes(r.latencies.write_p50 as nat), lbl_write_p95() + (dec_bytes(r.latencies.write_p95 as nat) + (lbl_write_p99() + (dec_bytes(r.latencies.write_p99 as nat) + (lbl_write_p999() + (dec_bytes(r.latencies.write_p999 as nat) + (lbl_read_p50() + (dec_bytes(r.latencies.read_p50 as nat) + (lbl_read_p95() + (dec_bytes(r.latencies.read_p95 as nat) + (lbl_read_p99() + (dec_bytes(r.latencies.read_p99 as nat) + (lbl_read_p999() + (dec_bytes(r.latencies.read_p999 as nat) + (lbl_scan_p99() + (dec_bytes(r.scan_p99 as nat) + (lbl_write_amplification() + (dec_bytes(r.write_amplification as nat) + (lbl_space_amplification() + (dec_bytes(r.space_amplification as nat) + (lbl_close() + (rest))))))))))))))))))))));
    seq_assoc(lbl_engine() + engine_token(r.engine_type) + lbl_throughput() + dec_bytes(r.throughput as nat) + lbl_operations() + dec_bytes(r.operations as nat) + lbl_duration_micros() + dec_bytes(r.duration_micros as nat), lbl_write_p50(), dec_bytes(r.latencies.write_p50 as nat) + (lbl_write_p95() + (dec_bytes(r.latencies.write_p95 as nat) + (lbl_write_p99() + (dec_bytes(r.latencies.write_p99 as nat) + (lbl_write_p999() + (dec_bytes(r.latencies.write_p999 as nat) + (lbl_read_p50() + (dec_bytes(r.latencies.read_p50 as nat) + (lbl_read_p95() + (dec_bytes(r.latencies.read_p95 as nat) + (lbl_read_p99() + (dec_bytes(r.latencies.read_p99 as nat) + (lbl_read_p999() + (dec_bytes(r.latencies.read_p999 as nat) + (lbl_scan_p99() + (dec_bytes(r.scan_p99 as nat) + (lbl_write_amplification() + (dec_bytes(r.write_amplification as nat) + (lbl_space_amplification() + (dec_bytes(r.space_amplification as nat) + (lbl_close() + (rest)))))))))))))))))))))));
    seq_assoc(lbl_engine() + engine_token(r.engine_type) + lbl_throughput() + dec_bytes(r.throughput as nat) + lbl_operations() + dec_bytes(r.operations as nat) + lbl_duration_micros(), dec_bytes(r.duration_micros as nat), lbl_write_p50() + (dec_bytes(r.latencies.write_p50 as nat) + (lbl_write_p95() + (dec_bytes(r.latencies.write_p95 as nat) + (lbl_write_p99() + (dec_bytes(r.latencies.write_p99 as nat) + (lbl_write_p999() + (dec_bytes(r.latencies.write_p999 as nat) + (lbl_read_p50() + (dec_bytes(r.latencies.read_p50 as nat) + (lbl_read_p95() + (dec_bytes(r.latencies.read_p95 as nat) + (lbl_read_p99() + (dec_bytes(r.latencies.read_p99 as nat) + (lbl_read_p999() + (dec_bytes(r.latencies.read_p999 as nat) + (lbl_scan_p99() + (dec_bytes(r.scan_p99 as nat) + (lbl_write_amplification() + (dec_bytes(r.write_amplification as nat) + (lbl_space_amplification() + (dec_bytes(r.space_amplification as nat) + (lbl_close() + (rest))))))))))))))))))))))));
    seq_assoc(lbl_engine() + engine_token(r.engine_type) + lbl_throughput() + dec_bytes(r.throughput as nat) + lbl_operations() + dec_bytes(r.operations as nat), lbl_duration_micros(), dec_bytes(r.duration_micros as nat) + (lbl_write_p50() + (dec_bytes(r.latencies.write_p50 as nat) + (lbl_write_p95() + (dec_bytes(r.latencies.write_p95 as nat) + (lbl_write_p99() + (dec_bytes(r.latencies.write_p99 as nat) + (lbl_write_p999() + (dec_bytes(r.latencies.write_p999 as nat) + (lbl_read_p50() + (dec_bytes(r.latencies.read_p50 as nat) + (lbl_read_p95() + (dec_bytes(r.latencies.read_p95 as nat) + (lbl_read_p99() + (dec_bytes(r.latencies.read_p99 as nat) + (lbl_read_p999() + (dec_bytes(r.latencies.read_p999 as nat) + (lbl_scan_p99() + (dec_bytes(r.scan_p99 as nat) + (lbl_write_amplification() + (dec_bytes(r.write_amplification as nat) + (lbl_space_amplification() + (dec_bytes(r.space_amplification as nat) + (lbl_close() + (rest)))))))))))))))))))))))));
    seq_assoc(lbl_engine() + engine_token(r.engine_type) + lbl_throughput() + dec_bytes(r.throughput as nat) + lbl_operations(), dec_bytes(r.operations as nat), lbl_duration_micros() + (dec_bytes(r.duration_micros as nat) + (lbl_write_p50() + (dec_bytes(r.latencies.write_p50 as nat) + (lbl_write_p95() + (dec_bytes(r.latencies.write_p95 as nat) + (lbl_write_p99() + (dec_bytes(r.latencies.write_p99 as nat) + (lbl_write_p999() + (dec_bytes(r.latencies.write_p999 as nat) + (lbl_read_p50() + (dec_bytes(r.latencies.read_p50 as nat) + (lbl_read_p95() + (dec_bytes(r.latencies.read_p95 as nat) + (lbl_read_p99() + (dec_bytes(r.latencies.read_p99 as nat) + (lbl_read_p999() + (dec_bytes(r.latencies.read_p999 as nat) + (lbl_scan_p99() + (dec_bytes(r.scan_p99 as nat) + (lbl_write_amplification() + (dec_bytes(r.write_amplification as nat) + (lbl_space_amplification() + (dec_bytes(r.space_amplification as nat) + (lbl_close() + (rest))))))))))))))))))))))))));
    seq_assoc(lbl_engine() + engine_token(r.engine_type) + lbl_throughput() + dec_bytes(r.throughput as nat), lbl_operations(), dec_bytes(r.operations as nat) + (lbl_duration_micros() + (dec_bytes(r.duration_micros as nat) + (lbl_write_p50() + (dec_bytes(r.latencies.write_p50 as nat) + (lbl_write_p95() + (dec_bytes(r.latencies.write_p95 as nat) + (lbl_write_p99() + (dec_bytes(r.latencies.write_p99 as nat) + (lbl_write_p999() + (dec_bytes(r.latencies.write_p999 as nat) + (lbl_read_p50() + (dec_bytes(r.latencies.read_p50 as nat) + (lbl_read_p95() + (dec_bytes(r.latencies.read_p95 as nat) + (lbl_read_p99() + (dec_bytes(r.latencies.read_p99 as nat) + (lbl_read_p999() + (dec_bytes(r.latencies.read_p999 as nat) + (lbl_scan_p99() + (dec_bytes(r.scan_p99 as nat) + (lbl_write_amplification() + (dec_bytes(r.write_amplification as nat) + (lbl_space_amplification() + (dec_bytes(r.space_amplification as nat) + (lbl_close() + (rest)))))))))))))))))))))))))));
    seq_assoc(lbl_engine() + engine_token(r.engine_type) + lbl_throughput(), dec_bytes(r.throughput as nat), lbl_operations() + (dec_bytes(r.operations as nat) + (lbl_duration_micros() + (dec_bytes(r.duration_micros as nat) + (lbl_write_p50() + (dec_bytes(r.latencies.write_p50 as nat) + (lbl_write_p95() + (dec_bytes(r.latencies.write_p95 as nat) + (lbl_write_p99() + (dec_bytes(r.latencies.write_p99 as nat) + (lbl_write_p999() + (dec_bytes(r.latencies.write_p999 as nat) + (lbl_read_p50() + (dec_bytes(r.latencies.read_p50 as nat) + (lbl_read_p95() + (dec_bytes(r.latencies.read_p95 as nat) + (lbl_read_p99() + (dec_bytes(r.latencies.read_p99 as nat) + (lbl_read_p999() + (dec_bytes(r.latencies.read_p999 as nat) + (lbl_scan_p99() + (dec_bytes(r.scan_p99 as nat) + (lbl_write_amplification() + (dec_bytes(r.write_amplification as nat) + (lbl_space_amplification() + (dec_bytes(r.space_amplification as nat) + (lbl_close() + (rest))))))))))))))))))))))))))));
    seq_assoc(lbl_engine() + engine_token(r.engine_type), lbl_throughput(), dec_bytes(r.throughput as nat) + (lbl_operations() + (dec_bytes(r.operations as nat) + (lbl_duration_micros() + (dec_bytes(r.duration_micros as nat) + (lbl_write_p50() + (dec_bytes(r.latencies.write_p50 as nat) + (lbl_write_p95() + (dec_bytes(r.latencies.write_p95 as nat) + (lbl_write_p99() + (dec_bytes(r.latencies.write_p99 as nat) + (lbl_write_p999() + (dec_bytes(r.latencies.write_p999 as nat) + (lbl_read_p50() + (dec_bytes(r.latencies.read_p50 as nat) + (lbl_read_p95() + (dec_bytes(r.latencies.read_p95 as nat) + (lbl_read_p99() + (dec_bytes(r.latencies.read_p99 as nat) + (lbl_read_p999() + (dec_bytes(r.latencies.read_p999 as nat) + (lbl_scan_p99() + (dec_bytes(r.scan_p99 as nat) + (lbl_write_amplification() + (dec_bytes(r.write_amplification as nat) + (lbl_space_amplification() + (dec_bytes(r.space_amplification as nat) + (lbl_close() + (rest)))))))))))))))))))))))))))));
    seq_assoc(lbl_engine(), engine_token(r.engine_type), lbl_throughput() + (dec_bytes(r.throughput as nat) + (lbl_operations() + (dec_bytes(r.operations as nat) + (lbl_duration_micros() + (dec_bytes(r.duration_micros as nat) + (lbl_write_p50() + (dec_bytes(r.latencies.write_p50 as nat) + (lbl_write_p95() + (dec_bytes(r.latencies.write_p95 as nat) + (lbl_write_p99() + (dec_bytes(r.latencies.write_p99 as nat) + (lbl_write_p999() + (dec_bytes(r.latencies.write_p999 as nat) + (lbl_read_p50() + (dec_bytes(r.latencies.read_p50 as nat) + (lbl_read_p95() + (dec_bytes(r.latencies.read_p95 as nat) + (lbl_read_p99() + (dec_bytes(r.latencies.read_p99 as nat) + (lbl_read_p999() + (dec_bytes(r.latencies.read_p999 as nat) + (lbl_scan_p99() + (dec_bytes(r.scan_p99 as nat) + (lbl_write_amplification() + (dec_bytes(r.write_amplification as nat) + (lbl_space_amplification() + (dec_bytes(r.space_amplification as nat) + (lbl_close() + (rest))))))))))))))))))))))))))))));
}

/// A rendered record followed by anything parses back to the same record,
/// leaving the rest untouched.
#[verifier::rlimit(100)]
proof fn lemma_parse_record_round(r: BenchmarkResult, rest: Seq<u8>)
    ensures
        parse_record_spec(render_record(r) + rest) == Some((r, rest)),
{
    lemma_record_reassoc(r, rest);
    let t30 = lbl_close() + rest;
    let t29 = dec_bytes(r.space_amplification as nat) + t30;
    let t28 = lbl_space_amplification() + t29;
    let t27 = dec_bytes(r.write_amplification as nat) + t28;
    let t26 = lbl_write_amplification() + t27;
    let t25 = dec_bytes(r.scan_p99 as nat) + t26;
    let t24 = lbl_scan_p99() + t25;
    let t23 = dec_bytes(r.latencies.read_p999 as nat) + t24;
    let t22 = lbl_read_p999() + t23;
    let t21 = dec_bytes(r.latencies.read_p99 as nat) + t22;
    let t20 = lbl_read_p99() + t21;
    let t19 = dec_bytes(r.latencies.read_p95 as nat) + t20;
    let t18 = lbl_read_p95() + t19;
    let t17 = dec_bytes(r.latencies.read_p50 as nat) + t18;
    let t16 = lbl_read_p50() + t17;
    let t15 = dec_bytes(r.latencies.write_p999 as nat) + t16;
    let t14 = lbl_write_p999() + t15;
    let t13 = dec_bytes(r.latencies.write_p99 as nat) + t14;
    let t12 = lbl_write_p99() + t13;
    let t11 = dec_bytes(r.latencies.write_p95 as nat) + t12;
    let t10 = lbl_write_p95() + t11;
    let t9 = dec_bytes(r.latencies.write_p50 as nat) + t10;
    let t8 = lbl_write_p50() + t9;
    let t7 = dec_bytes(r.duration_micros as nat) + t8;
    let t6 = lbl_duration_micros() + t7;
    let t5 = dec_bytes(r.operations as nat) + t6;
    let t4 = lbl_operations() + t5;
    let t3 = dec_bytes(r.throughput as nat) + t4;
    let t2 = lbl_throughput() + t3;
    let t1 = engine_token(r.engine_type) + t2;
    assert(render_record(r) + rest == lbl_engine() + t1);
    lemma_expect_round(lbl_engine(), t1);
    assert(expect_spec(render_record(r) + rest, lbl_engine()) == Some(t1));
    lemma_parse_engine_round(r.engine_type, t2);
    assert(parse_engine_spec(t1) == Some((r.engine_type, t2)));
    assert((t4).len() > 0);
    assert((t4)[0] == lbl_operations()[0]);
    lemma_parse_field_round(lbl_throughput(), r.throughput as nat, t4);
    assert(parse_field_spec(t2, lbl_throughput()) == Some((r.throughput as nat, t4)));
    assert((t6).len() > 0);
    assert((t6)[0] == lbl_duration_micros()[0]);
    lemma_parse_field_round(lbl_operations(), r.operations as nat, t6);
    assert(parse_field_spec(t4, lbl_operations()) == Some((r.operations as nat, t6)));
    assert((t8).len() > 0);
    assert((t8)[0] == lbl_write_p50()[0]);
    lemma_parse_field_round(lbl_duration_micros(), r.duration_micros as nat, t8);
    assert(parse_field_spec(t6, lbl_duration_micros()) == Some((r.duration_micros as nat, t8)));
    assert((t10).len() > 0);
    assert((t10)[0] == lbl_write_p95()[0]);
    lemma_parse_field_round(lbl_write_p50(), r.latencies.write_p50 as nat, t10);
    assert(parse_field_spec(t8, lbl_write_p50()) == Some((r.latencies.write_p50 as nat, t10)));
    assert((t12).len() > 0);
    assert((t12)[0] == lbl_write_p99()[0]);
    lemma_parse_field_round(lbl_write_p95(), r.latencies.write_p95 as nat, t12);
    assert(parse_field_spec(t10, lbl_write_p95()) == Some((r.latencies.write_p95 as nat, t12)));
    assert((t14).len() > 0);
    assert((t14)[0] == lbl_write_p999()[0]);
    lemma_parse_field_round(lbl_write_p99(), r.latencies.write_p99 as nat, t14);
    assert(parse_field_spec(t12, lbl_write_p99()) == Some((r.latencies.write_p99 as nat, t14)));
    assert((t16).len() > 0);
    assert((t16)[0] == lbl_read_p50()[0]);
    lemma_parse_field_round(lbl_write_p999(), r.latencies.write_p999 as nat, t16);
    assert(parse_field_spec(t14, lbl_write_p999()) == Some((r.latencies.write_p999 as nat, t16)));
    assert((t18).len() > 0);
    assert((t18)[0] == lbl_read_p95()[0]);
    lemma_parse_field_round(lbl_read_p50(), r.latencies.read_p50 as nat, t18);
    assert(parse_field_spec(t16, lbl_read_p50()) == Some((r.latencies.read_p50 as nat, t18)));
    assert((t20).len() > 0);
    assert((t20)[0] == lbl_read_p99()[0]);
    lemma_parse_field_round(lbl_read_p95(), r.latencies.read_p95 as nat, t20);
    assert(parse_field_spec(t18, lbl_read_p95()) == Some((r.latencies.read_p95 as nat, t20)));
    assert((t22).len() > 0);
    assert((t22)[0] == lbl_read_p999()[0]);
    lemma_parse_field_round(lbl_read_p99(), r.latencies.read_p99 as nat, t22);
    assert(parse_field_spec(t20, lbl_read_p99()) == Some((r.latencies.read_p99 as nat, t22)));
    assert((t24).len() > 0);
    assert((t24)[0] == lbl_scan_p99()[0]);
    lemma_parse_field_round(lbl_read_p999(), r.latencies.read_p999 as nat, t24);
    assert(parse_field_spec(t22, lbl_read_p999()) == Some((r.latencies.read_p999 as nat, t24)));
    assert((t26).len() > 0);
    assert((t26)[0] == lbl_write_amplification()[0]);
    lemma_parse_field_round(lbl_scan_p99(), r.scan_p99 as nat, t26);
    assert(parse_field_spec(t24, lbl_scan_p99()) == Some((r.scan_p99 as nat, t26)));
    assert((t28).len() > 0);
    assert((t28)[0] == lbl_space_amplification()[0]);
    lemma_parse_field_round(lbl_write_amplification(), r.write_amplification as nat, t28);
    assert(parse_field_spec(t26, lbl_write_amplification()) == Some((r.write_amplification as nat, t28)));
    assert((t30).len() > 0);
    assert((t30)[0] == lbl_close()[0]);
    lemma_parse_field_round(lbl_space_amplification(), r.space_amplification as nat, t30);
    assert(parse_field_spec(t28, lbl_space_amplification()) == Some((r.space_amplification as nat, t30)));
    lemma_expect_round(lbl_close(), rest);
    assert(expect_spec(t30, lbl_close()) == Some(rest));
}

/// A rendered record is never empty and always opens with a brace.
proof fn lemma_render_record_len(r: BenchmarkResult)
    ensures
        render_record(r).len() >= 1,
        render_record(r)[0] == 123,
{
    reveal(render_record);
}

/// A rendered list of records, followed by anything that does not begin
/// with a comma, parses back to the same list.
#[verifier::rlimit(100)]
proof fn lemma_parse_records_round(rs: Seq<BenchmarkResult>, rest: Seq<u8>)
    requires
        rs.len() >= 1,
        rest.len() == 0 || rest[0] != 44,
    ensures
        parse_records_spec(render_records(rs) + rest) == Some((rs, rest)),
    decreases rs.len(),
{
    if rs.len() == 1 {
        lemma_parse_record_round(rs[0], rest);
        if expect_spec(rest, seq![44u8]) is Some {
            assert(rest.take(1) == seq![44u8]);
            assert(rest.take(1)[0] == rest[0]);
            assert(false);
        }
        assert(seq![rs[0]] =~= rs);
    } else {
        let head = rs[0];
        let tail = rs.skip(1);
        let rec = render_record(head);
        let tail_bytes = render_records(tail) + rest;
        seq_assoc(rec, seq![44u8], render_records(tail));
        seq_assoc(rec + seq![44u8], render_records(tail), rest);
        seq_assoc(rec, seq![44u8], tail_bytes);
        lemma_parse_record_round(head, seq![44u8] + tail_bytes);
        lemma_expect_round(seq![44u8], tail_bytes);
        lemma_render_record_len(head);
        lemma_parse_records_round(tail, rest);
        assert(seq![head] + tail =~= rs);
        assert(render_records(rs) + rest == rec + (seq![44u8] + tail_bytes));
        assert((seq![44u8] + tail_bytes).len() == 1 + tail_bytes.len());
        assert(parse_records_spec(render_records(rs) + rest) == Some((rs, rest)));
    }
}

/// Round trip: rendering any list of results to the artifact and parsing it
/// back yields the same list, field for field.
#[verifier::rlimit(100)]
pub proof fn lemma_artifact_round_trip(rs: Seq<BenchmarkResult>)
    ensures
        parse_results_spec(render_results_spec(rs)) == Some(rs),
{
    let body = render_records(rs);
    seq_assoc(seq![91u8], body, seq![93u8]);
    lemma_expect_round(seq![91u8], body + seq![93u8]);
    if rs.len() == 0 {
        assert(body + seq![93u8] =~= seq![93u8] + Seq::<u8>::empty());
        lemma_expect_round(seq![93u8], Seq::<u8>::empty());
    } else {
        let s1 = body + seq![93u8];
        lemma_render_record_len(rs[0]);
        assert(body[0] == render_record(rs[0])[0]);
        assert(s1[0] == body[0]);
        if expect_spec(s1, seq![93u8]) is Some {
            assert(s1.take(1) == seq![93u8]);
            assert(s1.take(1)[0] == s1[0]);
            assert(false);
        }
        lemma_parse_records_round(rs, seq![93u8]);
        assert(seq![93u8] =~= seq![93u8] + Seq::<u8>::empty());
        lemma_expect_round(seq![93u8], Seq::<u8>::empty());
    }
}

/// Executable digit check matching `is_digit_byte`.
fn is_digit_exec(b: u8) -> (r: bool)
    ensures
        r == is_digit_byte(b),
{
    48 <= b && b <= 57
}

/// A literal matched against the stream at `pos`.
fn expect_at(s: &Vec<u8>, pos: usize, lit: &Vec<u8>) -> (r: Option<usize>)
    requires
        pos <= s@.len(),
    ensures
        match r {
            Some(p) => p == pos + lit@.len() && p <= s@.len() && expect_spec(
                s@.skip(pos as int),
                lit@,
            ) == Some(s@.skip(p as int)),
            None => expect_spec(s@.skip(pos as int), lit@) is None,
        },
{
    let n = s.len();
    if lit.len() > n - pos {
        return None;
    }
    let mut i: usize = 0;
    while i < lit.len()
        invariant
            n == s@.len(),
            pos + lit@.len() <= s@.len(),
            0 <= i <= lit@.len(),
            forall|j: int| 0 <= j < i ==> s@[pos + j] == lit@[j],
        decreases lit@.len() - i,
    {
        proof {
            assert(pos + i < s@.len());
        }
        if s[pos + i] != lit[i] {
            proof {
                let ss = s@.skip(pos as int);
                assert(ss.take(lit@.len() as int)[i as int] == s@[pos + i]);
            }
            return None;
        }
        i = i + 1;
    }
    proof {
        let ss = s@.skip(pos as int);
        assert forall|j: int| 0 <= j < lit@.len() implies ss.take(lit@.len() as int)[j] == lit@[j] by {
            assert(ss.take(lit@.len() as int)[j] == s@[pos + j]);
        }
        assert(ss.take(lit@.len() as int) =~= lit@);
        assert(ss.skip(lit@.len() as int) =~= s@.skip(pos + lit@.len()));
    }
    Some(pos + lit.len())
}

/// A decimal number read from the stream at `pos`.
fn parse_u64_at(s: &Vec<u8>, pos: usize) -> (r: Option<(u64, usize)>)
    requires
        pos <= s@.len(),
    ensures
        match r {
            Some(t) => parse_u64_spec(s@.skip(pos as int)) == Some(
                (t.0 as nat, s@.skip(t.1 as int)),
            ) && pos < t.1 <= s@.len(),
            None => parse_u64_spec(s@.skip(pos as int)) is None,
        },
{
    let ghost ss = s@.skip(pos as int);
    let n = s.len();
    let mut i: usize = pos;
    let mut acc: u64 = 0;
    let mut overflow: bool = false;
    while i < n && is_digit_exec(s[i])
        invariant
            pos <= i <= n,
            n == s@.len(),
            ss == s@.skip(pos as int),
            forall|j: int| 0 <= j < i - pos ==> is_digit_byte(ss[j]),
            !overflow ==> acc == digits_value(ss.take(i - pos)),
            overflow ==> digits_value(ss.take(i - pos)) > u64::MAX,
        decreases n - i,
    {
        let d = (s[i] - 48) as u64;
        proof {
            assert(ss.take(i - pos + 1).drop_last() =~= ss.take(i - pos));
            assert(ss.take(i - pos + 1).last() == ss[i - pos]);
            assert(ss[i - pos] == s@[i as int]);
        }
        if overflow {
            proof {
                lemma_digits_value_extend_grows(ss.take(i - pos + 1));
            }
        } else {
            let wide: u128 = acc as u128 * 10 + d as u128;
            if wide > u64::MAX as u128 {
                overflow = true;
            } else {
                acc = wide as u64;
            }
        }
        i = i + 1;
    }
    proof {
        if i < n {
            assert(ss[i - pos] == s@[i as int]);
        }
        lemma_digit_prefix_len_from_scan(ss, i - pos);
    }
    if i == pos {
        return None;
    }
    if overflow {
        return None;
    }
    proof {
        assert(ss.skip(i - pos) =~= s@.skip(i as int));
    }
    Some((acc, i))
}

/// An engine token read from the stream at `pos`.
fn parse_engine_at(s: &Vec<u8>, pos: usize, rocks: &Vec<u8>, sled: &Vec<u8>) -> (r: Option<
    (EngineType, usize),
>)
    requires
        pos <= s@.len(),
        rocks@ == tok_rocksdb(),
        sled@ == tok_sled(),
    ensures
        match r {
            Some(t) => parse_engine_spec(s@.skip(pos as int)) == Some(
                (t.0, s@.skip(t.1 as int)),
            ) && pos < t.1 <= s@.len(),
            None => parse_engine_spec(s@.skip(pos as int)) is None,
        },
{
    match expect_at(s, pos, rocks) {
        Some(p) => Some((EngineType::RocksDB, p)),
        None => match expect_at(s, pos, sled) {
            Some(p) => Some((EngineType::Sled, p)),
            None => None,
        },
    }
}

/// A label followed by a number, read from the stream at `pos`.
fn parse_field_at(s: &Vec<u8>, pos: usize, lbl: &Vec<u8>) -> (r: Option<(u64, usize)>)
    requires
        pos <= s@.len(),
    ensures
        match r {
            Some(t) => parse_field_spec(s@.skip(pos as int), lbl@) == Some(
                (t.0 as nat, s@.skip(t.1 as int)),
            ) && pos < t.1 <= s@.len(),
            None => parse_field_spec(s@.skip(pos as int), lbl@) is None,
        },
{
    match expect_at(s, pos, lbl) {
        None => None,
        Some(p) => parse_u64_at(s, p),
    }
}

/// The label and token vectors the parser matches against.
struct ArtifactLabels {
    engine: Vec<u8>,
    throughput: Vec<u8>,
    operations: Vec<u8>,
    duration_micros: Vec<u8>,
    write_p50: Vec<u8>,
    write_p95: Vec<u8>,
    write_p99: Vec<u8>,
    write_p999: Vec<u8>,
    read_p50: Vec<u8>,
    read_p95: Vec<u8>,
    read_p99: Vec<u8>,
    read_p999: Vec<u8>,
    scan_p99: Vec<u8>,
    write_amplification: Vec<u8>,
    space_amplification: Vec<u8>,
    close: Vec<u8>,
    rocksdb: Vec<u8>,
    sled: Vec<u8>,
}

impl ArtifactLabels {
    /// Every vector holds its label's bytes.
    spec fn wf(self) -> bool {
        &&& self.engine@ == lbl_engine()
        &&& self.throughput@ == lbl_throughput()
        &&& self.operations@ == lbl_operations()
        &&& self.duration_micros@ == lbl_duration_micros()
        &&& self.write_p50@ == lbl_write_p50()
        &&& self.write_p95@ == lbl_write_p95()
        &&& self.write_p99@ == lbl_write_p99()
        &&& self.write_p999@ == lbl_write_p999()
        &&& self.read_p50@ == lbl_read_p50()
        &&& self.read_p95@ == lbl_read_p95()
        &&& self.read_p99@ == lbl_read_p99()
        &&& self.read_p999@ == lbl_read_p999()
        &&& self.scan_p99@ == lbl_scan_p99()
        &&& self.write_amplification@ == lbl_write_amplification()
        &&& self.space_amplification@ == lbl_space_amplification()
        &&& self.close@ == lbl_close()
        &&& self.rocksdb@ == tok_rocksdb()
        &&& self.sled@ == tok_sled()
    }

    /// Builds the label set.
    fn make() -> (r: ArtifactLabels)
        ensures
            r.wf(),
    {
        ArtifactLabels {
            engine: lbl_engine_vec(),
            throughput: lbl_throughput_vec(),
            operations: lbl_operations_vec(),
            duration_micros: lbl_duration_micros_vec(),
            write_p50: lbl_write_p50_vec(),
            write_p95: lbl_write_p95_vec(),
            write_p99: lbl_write_p99_vec(),
            write_p999: lbl_write_p999_vec(),
            read_p50: lbl_read_p50_vec(),
            read_p95: lbl_read_p95_vec(),
            read_p99: lbl_read_p99_vec(),
            read_p999: lbl_read_p999_vec(),
            scan_p99: lbl_scan_p99_vec(),
            write_amplification: lbl_write_amplification_vec(),
            space_amplification: lbl_space_amplification_vec(),
            close: lbl_close_vec(),
            rocksdb: tok_rocksdb_vec(),
            sled: tok_sled_vec(),
        }
    }
}

/// One record read from the stream at `pos`.
#[verifier::rlimit(100)]
fn parse_record_at(s: &Vec<u8>, pos: usize, labels: &ArtifactLabels) -> (r: Option<
    (BenchmarkResult, usize),
>)
    requires
        pos <= s@.len(),
        labels.wf(),
    ensures
        match r {
            Some(t) => parse_record_spec(s@.skip(pos as int)) == Some(
                (t.0, s@.skip(t.1 as int)),
            ) && pos < t.1 <= s@.len(),
            None => parse_record_spec(s@.skip(pos as int)) is None,
        },
{
    let p0 = match expect_at(s, pos, &labels.engine) {
        None => {
            return None;
        },
        Some(p) => p,
    };
    let (etype, p1) = match parse_engine_at(s, p0, &labels.rocksdb, &labels.sled) {
        None => {
            return None;
        },
        Some(t) => t,
    };
    let (v_throughput, p2) = match parse_field_at(s, p1, &labels.throughput) {
        None => {
            return None;
        },
        Some(t) => t,
    };
    let (v_operations, p3) = match parse_field_at(s, p2, &labels.operations) {
        None => {
            return None;
        },
        Some(t) => t,
    };
    let (v_duration_micros, p4) = match parse_field_at(s, p3, &labels.duration_micros) {
        None => {
            return None;
        },
        Some(t) => t,
    };
    let (v_write_p50, p5) = match parse_field_at(s, p4, &labels.write_p50) {
        None => {
            return None;
        },
        Some(t) => t,
    };
    let (v_write_p95, p6) = match parse_field_at(s, p5, &labels.write_p95) {
        None => {
            return None;
        },
        Some(t) => t,
    };
    let (v_write_p99, p7) = match parse_field_at(s, p6, &labels.write_p99) {
        None => {
            return None;
        },
        Some(t) => t,
    };
    let (v_write_p999, p8) = match parse_field_at(s, p7, &labels.write_p999) {
        None => {
            return None;
        },
        Some(t) => t,
    };
    let (v_read_p50, p9) = match parse_field_at(s, p8, &labels.read_p50) {
        None => {
            return None;
        },
        Some(t) => t,
    };
    let (v_read_p95, p10) = match parse_field_at(s, p9, &labels.read_p95) {
        None => {
            return None;
        },
        Some(t) => t,
    };
    let (v_read_p99, p11) = match parse_field_at(s, p10, &labels.read_p99) {
        None => {
            return None;
        },
        Some(t) => t,
    };
    let (v_read_p999, p12) = match parse_field_at(s, p11, &labels.read_p999) {
        None => {
            return None;
        },
        Some(t) => t,
    };
    let (v_scan_p99, p13) = match parse_field_at(s, p12, &labels.scan_p99) {
        None => {
            return None;
        },
        Some(t) => t,
    };
    let (v_write_amplification, p14) = match parse_field_at(s, p13, &labels.write_amplification) {
        None => {
            return None;
        },
        Some(t) => t,
    };
    let (v_space_amplification, p15) = match parse_field_at(s, p14, &labels.space_amplification) {
        None => {
            return None;
        },
        Some(t) => t,
    };
    let p_end = match expect_at(s, p15, &labels.close) {
        None => {
            return None;
        },
        Some(p) => p,
    };
    let rec = BenchmarkResult {
        engine_type: etype,
        throughput: v_throughput,
        operations: v_operations,
        duration_micros: v_duration_micros,
        latencies: LatencyStats { write_p50: v_write_p50, write_p95: v_write_p95, write_p99: v_write_p99, write_p999: v_write_p999, read_p50: v_read_p50, read_p95: v_read_p95, read_p99: v_read_p99, read_p999: v_read_p999 },
        scan_p99: v_scan_p99,
        write_amplification: v_write_amplification,
        space_amplification: v_space_amplification,
    };
    Some((rec, p_end))
}

/// Parses an artifact back into its list of results: exactly a bracketed,
/// comma-separated list of records with nothing after it is accepted.
#[verifier::rlimit(100)]
pub fn parse_results(input: &Vec<u8>) -> (r: Option<Vec<BenchmarkResult>>)
    ensures
        match r {
            Some(v) => parse_results_spec(input@) == Some(v@),
            None => parse_results_spec(input@) is None,
        },
{
    let labels = ArtifactLabels::make();
    let mut lbracket: Vec<u8> = Vec::new();
    lbracket.push(91);
    let mut rbracket: Vec<u8> = Vec::new();
    rbracket.push(93);
    let mut comma: Vec<u8> = Vec::new();
    comma.push(44);
    proof {
        assert(lbracket@ =~= seq![91u8]);
        assert(rbracket@ =~= seq![93u8]);
        assert(comma@ =~= seq![44u8]);
        assert(input@.skip(0) =~= input@);
    }
    let start = match expect_at(input, 0, &lbracket) {
        None => {
            return None;
        },
        Some(p) => p,
    };
    match expect_at(input, start, &rbracket) {
        Some(p) => {
            if p == input.len() {
                let empty: Vec<BenchmarkResult> = Vec::new();
                proof {
                    assert(input@.skip(p as int).len() == 0);
                    assert(empty@ =~= Seq::<BenchmarkResult>::empty());
                }
                return Some(empty);
            } else {
                proof {
                    assert(input@.skip(p as int).len() > 0);
                }
                return None;
            }
        },
        None => (),
    }
    let mut results: Vec<BenchmarkResult> = Vec::new();
    let mut pos: usize = start;
    proof {
        let o = parse_records_spec(input@.skip(start as int));
        match o {
            Some(t) => {
                assert(results@ + t.0 =~= t.0);
            },
            None => (),
        }
    }
    loop
        invariant
            labels.wf(),
            comma@ == seq![44u8],
            rbracket@ == seq![93u8],
            start <= pos <= input@.len(),
            expect_spec(input@, seq![91u8]) == Some(input@.skip(start as int)),
            expect_spec(input@.skip(start as int), seq![93u8]) is None,
            match parse_records_spec(input@.skip(pos as int)) {
                Some(t) => parse_records_spec(input@.skip(start as int)) == Some(
                    (results@ + t.0, t.1),
                ),
                None => parse_records_spec(input@.skip(start as int)) is None,
            },
        decreases input@.len() - pos,
    {
        let (rec, p2) = match parse_record_at(input, pos, &labels) {
            None => {
                return None;
            },
            Some(t) => t,
        };
        let ghost pre = results@;
        results.push(rec);
        proof {
            assert(results@ =~= pre + seq![rec]);
        }
        match expect_at(input, p2, &comma) {
            Some(p3) => {
                proof {
                    assert(input@.skip(p3 as int).len() < input@.skip(pos as int).len());
                    let o3 = parse_records_spec(input@.skip(p3 as int));
                    match o3 {
                        Some(t) => {
                            assert((pre + seq![rec]) + t.0 =~= pre + (seq![rec] + t.0));
                        },
                        None => (),
                    }
                }
                pos = p3;
            },
            None => {
                match expect_at(input, p2, &rbracket) {
                    Some(p4) => {
                        if p4 == input.len() {
                            proof {
                                assert(input@.skip(p4 as int).len() == 0);
                            }
                            return Some(results);
                        } else {
                            proof {
                                assert(input@.skip(p4 as int).len() > 0);
                            }
                            return None;
                        }
                    },
                    None => {
                        return None;
                    },
                }
            },
        }
    }
}

} // verus!
