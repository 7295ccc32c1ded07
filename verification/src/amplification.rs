use vstd::prelude::*;

verus! {

/// Cumulative byte counters reported for one engine under test, together
/// with the optional on-disk footprint where the backend exposes one.
#[derive(Clone, Copy, PartialEq, Eq, Structural, Debug)]
pub struct EngineStatistics {
    /// Logical bytes written by the application.
    pub bytes_written: u64,
    /// Logical bytes read by the application.
    pub bytes_read: u64,
    /// Physical bytes written by background reorganisation (compaction or
    /// page rewrites), reported or estimated.
    pub compaction_bytes_written: u64,
    /// Physical bytes read by background reorganisation.
    pub compaction_bytes_read: u64,
    /// On-disk footprint in bytes, when the backend can report it.
    pub disk_size_bytes: Option<u64>,
}

/// The storage-engine backend a result belongs to.
#[derive(Clone, Copy, PartialEq, Eq, Structural, Debug)]
pub enum EngineType {
    RocksDB,
    Sled,
}

/// The two estimation families the amplification model distinguishes:
/// engines that merge sorted runs in the background, and engines that
/// update fixed-size pages in place.
#[derive(Clone, Copy, PartialEq, Eq, Structural, Debug)]
pub enum EngineFamily {
    LogStructured,
    PageStructured,
}

/// Write and space amplification, as ratios scaled by 100 (so 100 means a
/// ratio of exactly 1). Integer hundredths keep the figures exact and
/// comparable without floating point.
#[derive(Clone, Copy, PartialEq, Eq, Structural, Debug)]
pub struct Amplification {
    pub waf_centi: u64,
    pub saf_centi: u64,
}

/// Page size assumed for page-structured engines, in bytes.
pub const PAGE_SIZE: u64 = 8192;

/// How many times a page-structured engine is assumed to rewrite each page.
pub const PAGE_REWRITE_FACTOR: u64 = 10;

/// Fallback multiplier for log-structured compaction when the backend
/// reports no compaction counters.
pub const LOG_COMPACTION_FALLBACK_FACTOR: u64 = 2;

/// Write amplification in hundredths: physical writes (logical plus
/// reorganisation) over logical writes, or exactly 1 when nothing was
/// written.
pub open spec fn waf_centi_spec(bytes_written: nat, compaction_bytes_written: nat) -> nat {
    if bytes_written == 0 {
        100
    } else {
        (bytes_written + compaction_bytes_written) * 100 / bytes_written
    }
}

/// Space amplification in hundredths: on-disk footprint over logical
/// writes, or exactly 1 when nothing was written.
pub open spec fn saf_centi_spec(disk_size_bytes: nat, bytes_written: nat) -> nat {
    if bytes_written == 0 {
        100
    } else {
        disk_size_bytes * 100 / bytes_written
    }
}

/// Saturation of an unbounded count at the largest representable value.
pub open spec fn sat_u64(v: nat) -> nat {
    if v > u64::MAX {
        u64::MAX as nat
    } else {
        v
    }
}

/// Compaction bytes assumed for a log-structured engine: the reported
/// counter when present, else a fixed multiple of the logical writes.
pub open spec fn log_structured_compaction_spec(reported: nat, bytes_written: nat) -> nat {
    if reported == 0 && bytes_written > 0 {
        sat_u64(bytes_written * LOG_COMPACTION_FALLBACK_FACTOR as nat)
    } else {
        reported
    }
}

/// Rewrite bytes assumed for a page-structured engine: every fully written
/// page is assumed rewritten a fixed number of times.
pub open spec fn page_structured_rewrites_spec(bytes_written: nat) -> nat {
    sat_u64((bytes_written / PAGE_SIZE as nat) * PAGE_SIZE as nat * PAGE_REWRITE_FACTOR as nat)
}

impl EngineType {
    /// Which estimation family applies to this backend.
    pub open spec fn family_spec(self) -> EngineFamily {
        match self {
            EngineType::RocksDB => EngineFamily::LogStructured,
            EngineType::Sled => EngineFamily::PageStructured,
        }
    }

    /// Executable family lookup.
    pub fn family(&self) -> (r: EngineFamily)
        ensures
            r == self.family_spec(),
    {
        match self {
            EngineType::RocksDB => EngineFamily::LogStructured,
            EngineType::Sled => EngineFamily::PageStructured,
        }
    }
}

/// Executable write-amplification ratio, saturating at `u64::MAX`
/// hundredths.
pub fn waf_centi(bytes_written: u64, compaction_bytes_written: u64) -> (r: u64)
    ensures
        r == sat_u64(waf_centi_spec(bytes_written as nat, compaction_bytes_written as nat)),
{
    if bytes_written == 0 {
        100
    } else {
        let physical: u128 = bytes_written as u128 + compaction_bytes_written as u128;
        let ratio: u128 = physical * 100 / bytes_written as u128;
        if ratio > u64::MAX as u128 {
            u64::MAX
        } else {
            ratio as u64
        }
    }
}

/// Executable space-amplification ratio, saturating at `u64::MAX`
/// hundredths.
pub fn saf_centi(disk_size_bytes: u64, bytes_written: u64) -> (r: u64)
    ensures
        r == sat_u64(saf_centi_spec(disk_size_bytes as nat, bytes_written as nat)),
{
    if bytes_written == 0 {
        100
    } else {
        let ratio: u128 = disk_size_bytes as u128 * 100 / bytes_written as u128;
        if ratio > u64::MAX as u128 {
            u64::MAX
        } else {
            ratio as u64
        }
    }
}

/// Executable log-structured compaction estimate.
pub fn log_structured_compaction(reported: u64, bytes_written: u64) -> (r: u64)
    ensures
        r == log_structured_compaction_spec(reported as nat, bytes_written as nat),
{
    if reported == 0 && bytes_written > 0 {
        if bytes_written > u64::MAX / LOG_COMPACTION_FALLBACK_FACTOR {
            u64::MAX
        } else {
            bytes_written * LOG_COMPACTION_FALLBACK_FACTOR
        }
    } else {
        reported
    }
}

/// Executable page-structured rewrite estimate.
pub fn page_structured_rewrites(bytes_written: u64) -> (r: u64)
    ensures
        r == page_structured_rewrites_spec(bytes_written as nat),
{
    let whole_pages: u64 = bytes_written / PAGE_SIZE * PAGE_SIZE;
    assert(whole_pages <= bytes_written) by (nonlinear_arith)
        requires
            whole_pages == bytes_written / PAGE_SIZE * PAGE_SIZE,
            PAGE_SIZE > 0,
    ;
    if whole_pages > u64::MAX / PAGE_REWRITE_FACTOR {
        u64::MAX
    } else {
        whole_pages * PAGE_REWRITE_FACTOR
    }
}

/// The amplification figures a family's strategy derives from raw
/// statistics: the family-specific reorganisation estimate feeds the write
/// ratio, and the reported disk footprint (defaulting to the logical bytes
/// when absent) feeds the space ratio.
pub open spec fn amplification_spec(family: EngineFamily, stats: EngineStatistics) -> Amplification {
    let reorg: nat = match family {
        EngineFamily::LogStructured => log_structured_compaction_spec(
            stats.compaction_bytes_written as nat,
            stats.bytes_written as nat,
        ),
        EngineFamily::PageStructured => page_structured_rewrites_spec(stats.bytes_written as nat),
    };
    let disk: nat = match stats.disk_size_bytes {
        Some(d) => d as nat,
        None => stats.bytes_written as nat,
    };
    Amplification {
        waf_centi: sat_u64(waf_centi_spec(stats.bytes_written as nat, reorg)) as u64,
        saf_centi: sat_u64(saf_centi_spec(disk, stats.bytes_written as nat)) as u64,
    }
}

/// Turns one engine's raw byte counters into write and space amplification
/// under the estimation strategy of the given family.
pub fn amplification_for(family: EngineFamily, stats: &EngineStatistics) -> (r: Amplification)
    ensures
        r == amplification_spec(family, *stats),
{
    let reorg: u64 = match family {
        EngineFamily::LogStructured => log_structured_compaction(
            stats.compaction_bytes_written,
            stats.bytes_written,
        ),
        EngineFamily::PageStructured => page_structured_rewrites(stats.bytes_written),
    };
    let disk: u64 = match stats.disk_size_bytes {
        Some(d) => d,
        None => stats.bytes_written,
    };
    Amplification { waf_centi: waf_centi(stats.bytes_written, reorg), saf_centi: saf_centi(
        disk,
        stats.bytes_written,
    ) }
}

/// Write amplification never falls below a ratio of 1, and space
/// amplification never falls below 1 whenever the disk footprint covers the
/// logical writes; with no writes at all, both ratios are exactly 1.
pub proof fn lemma_amplification_bounds(bytes_written: nat, reorg: nat, disk: nat)
    ensures
        waf_centi_spec(bytes_written, reorg) >= 100,
        bytes_written == 0 ==> waf_centi_spec(bytes_written, reorg) == 100,
        bytes_written == 0 ==> saf_centi_spec(disk, bytes_written) == 100,
        disk >= bytes_written ==> saf_centi_spec(disk, bytes_written) >= 100,
{
    if bytes_written > 0 {
        assert((bytes_written + reorg) * 100 / bytes_written >= 100) by (nonlinear_arith)
            requires
                bytes_written > 0,
                reorg >= 0,
        ;
        if disk >= bytes_written {
            assert(disk * 100 / bytes_written >= 100) by (nonlinear_arith)
                requires
                    bytes_written > 0,
                    disk >= bytes_written,
            ;
        }
    }
}

/// The saturated figures an engine run reports keep the same lower bounds.
pub proof fn lemma_amplification_for_bounds(family: EngineFamily, stats: EngineStatistics)
    ensures
        amplification_spec(family, stats).waf_centi >= 100,
        stats.disk_size_bytes matches Some(d) && d >= stats.bytes_written
            ==> amplification_spec(family, stats).saf_centi >= 100,
        stats.disk_size_bytes is None ==> amplification_spec(family, stats).saf_centi >= 100,
        stats.bytes_written == 0 ==> amplification_spec(family, stats).waf_centi == 100
            && amplification_spec(family, stats).saf_centi == 100,
{
    let reorg: nat = match family {
        EngineFamily::LogStructured => log_structured_compaction_spec(
            stats.compaction_bytes_written as nat,
            stats.bytes_written as nat,
        ),
        EngineFamily::PageStructured => page_structured_rewrites_spec(stats.bytes_written as nat),
    };
    let disk: nat = match stats.disk_size_bytes {
        Some(d) => d as nat,
        None => stats.bytes_written as nat,
    };
    lemma_amplification_bounds(stats.bytes_written as nat, reorg, disk);
}

} // verus!
