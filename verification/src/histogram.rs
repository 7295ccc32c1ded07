use vstd::prelude::*;
use vstd::arithmetic::div_mod::lemma_div_denominator;
use vstd::arithmetic::div_mod::lemma_div_is_ordered;
use vstd::arithmetic::power2::lemma_pow2_adds;
use vstd::arithmetic::power2::lemma_pow2_strictly_increases;
use vstd::arithmetic::power2::lemma2_to64;
use vstd::arithmetic::power2::pow2;

verus! {

/// Smallest latency the histogram distinguishes, in microseconds.
pub const LOWEST_VALUE: u64 = 1;

/// Largest latency the histogram distinguishes, in microseconds.
pub const HIGHEST_VALUE: u64 = 1_000_000_000;

/// Width of the initial linear region: values below this are their own slot,
/// which keeps three significant decimal digits exactly.
pub const LINEAR_SLOTS: u64 = 2048;

/// Sub-slots per doubling bucket above the linear region.
pub const SUB_SLOTS: u64 = 1024;

/// Doubling buckets needed to cover the range up to `HIGHEST_VALUE`.
pub const NUM_BUCKETS: u64 = 19;

/// Total slot count: the linear region plus the doubling buckets.
pub const NUM_SLOTS: usize = 21504;

/// Clamping of a recorded duration into the histogram's dynamic range.
/// Out-of-range samples are kept at the nearest bound, never dropped.
pub open spec fn clamp_spec(v: u64) -> u64 {
    if v < LOWEST_VALUE {
        LOWEST_VALUE
    } else if v > HIGHEST_VALUE {
        HIGHEST_VALUE
    } else {
        v
    }
}

/// How many doublings it takes to bring a value below the linear region.
pub open spec fn bucket_of(v: nat) -> nat
    decreases v,
{
    if v < LINEAR_SLOTS {
        0
    } else {
        1 + bucket_of(v / 2)
    }
}

/// The slot a clamped value is counted in: itself in the linear region,
/// otherwise the sub-slot its leading bits select within its doubling
/// bucket.
pub open spec fn slot_of(v: nat) -> nat {
    if v < LINEAR_SLOTS {
        v
    } else {
        let b = bucket_of(v);
        (LINEAR_SLOTS + (b - 1) * SUB_SLOTS + (v / pow2(b) - SUB_SLOTS)) as nat
    }
}

/// The value reported for a slot: the largest value the slot can hold, so
/// reported percentiles never understate a recorded sample's slot.
pub open spec fn rep_of(s: nat) -> nat {
    if s < LINEAR_SLOTS {
        s
    } else {
        let b = (s - LINEAR_SLOTS) as nat / SUB_SLOTS as nat + 1;
        let sub = SUB_SLOTS as nat + (s - LINEAR_SLOTS) as nat % SUB_SLOTS as nat;
        ((sub + 1) * pow2(b) - 1) as nat
    }
}

/// Sum of a sequence of slot counts.
pub open spec fn sum_counts(s: Seq<u64>) -> nat
    decreases s.len(),
{
    if s.len() == 0 {
        0
    } else {
        (sum_counts(s.drop_last()) + s.last()) as nat
    }
}

/// The first slot at which the running total of counts reaches `target`,
/// or the last slot when the total never does.
pub open spec fn least_slot(counts: Seq<u64>, target: nat) -> nat
    decreases counts.len(),
{
    if counts.len() <= 1 {
        0
    } else if target <= counts[0] {
        0
    } else {
        1 + least_slot(counts.skip(1), (target - counts[0]) as nat)
    }
}

/// The number of samples that must lie at or below the reported value for a
/// percentile given in tenths of a percent, rounded up.
pub open spec fn target_count(total: nat, p_tenths: nat) -> nat {
    (total * p_tenths + 999) / 1000
}

/// The value a percentile query reports: the representative of the first
/// slot whose cumulative count covers the target, or zero when the
/// histogram is empty.
pub open spec fn percentile_spec(counts: Seq<u64>, total: nat, p_tenths: nat) -> nat {
    if total == 0 {
        0
    } else {
        rep_of(least_slot(counts, target_count(total, p_tenths)))
    }
}

/// A bounded-range log-linear latency histogram: exact slots up to 2048
/// microseconds, then 1024 sub-slots per doubling, covering one microsecond
/// to 10^9 microseconds with three significant decimal digits.
pub struct LatencyHistogram {
    counts: Vec<u64>,
    total: u64,
}

impl LatencyHistogram {
    /// The slot counts this histogram holds.
    pub closed spec fn counts_seq(self) -> Seq<u64> {
        self.counts@
    }

    /// The number of samples recorded.
    pub closed spec fn total_spec(self) -> nat {
        self.total as nat
    }

    /// Structural invariant: the slot vector spans the full range and the
    /// stored total is the sum of all slots.
    pub closed spec fn wf(self) -> bool {
        &&& self.counts@.len() == NUM_SLOTS
        &&& sum_counts(self.counts@) == self.total as nat
    }

    /// An empty histogram over the fixed dynamic range.
    pub fn new() -> (r: LatencyHistogram)
        ensures
            r.wf(),
            r.total_spec() == 0,
            r.counts_seq() =~= Seq::new(NUM_SLOTS as nat, |i: int| 0u64),
    {
        let mut counts: Vec<u64> = Vec::new();
        let mut i: usize = 0;
        while i < NUM_SLOTS
            invariant
                0 <= i <= NUM_SLOTS,
                counts@.len() == i,
                forall|j: int| 0 <= j < i ==> counts@[j] == 0u64,
                sum_counts(counts@) == 0,
            decreases NUM_SLOTS - i,
        {
            proof {
                assert(counts@.push(0u64).drop_last() =~= counts@);
            }
            counts.push(0);
            i = i + 1;
        }
        proof {
            assert(counts@ =~= Seq::new(NUM_SLOTS as nat, |j: int| 0u64));
        }
        LatencyHistogram { counts, total: 0 }
    }

    /// Records one duration, clamping it into the dynamic range: the
    /// clamped value's slot gains one sample and the total grows by one;
    /// every other slot is untouched.
    pub fn record(&mut self, micros: u64)
        requires
            old(self).wf(),
            old(self).total_spec() < u64::MAX,
        ensures
            final(self).wf(),
            final(self).total_spec() == old(self).total_spec() + 1,
            final(self).counts_seq() == old(self).counts_seq().update(
                slot_of(clamp_spec(micros) as nat) as int,
                (old(self).counts_seq()[slot_of(clamp_spec(micros) as nat) as int] + 1) as u64,
            ),
    {
        let v: u64 = if micros < LOWEST_VALUE {
            LOWEST_VALUE
        } else if micros > HIGHEST_VALUE {
            HIGHEST_VALUE
        } else {
            micros
        };
        let s: usize = slot_for(v);
        proof {
            lemma_elem_le_sum(self.counts@, s as int);
        }
        let c: u64 = self.counts[s];
        self.counts.set(s, c + 1);
        proof {
            lemma_sum_update_incr(old(self).counts@, s as int);
        }
        self.total = self.total + 1;
    }

    /// Reports the latency at a percentile given in tenths of a percent
    /// (so 999 stands for the 99.9th percentile): the representative value
    /// of the first slot whose cumulative count reaches the rounded-up
    /// share of the samples, and zero on an empty histogram.
    pub fn percentile(&self, p_tenths: u64) -> (r: u64)
        requires
            self.wf(),
            p_tenths <= 1000,
        ensures
            r == percentile_spec(self.counts_seq(), self.total_spec(), p_tenths as nat),
    {
        if self.total == 0 {
            return 0;
        }
        proof {
            lemma_target_le_total(self.total as nat, p_tenths as nat);
        }
        let wide: u128 = self.total as u128 * p_tenths as u128 + 999;
        let ghost tcn: nat = target_count(self.total as nat, p_tenths as nat);
        proof {
            assert(wide == self.total as nat * p_tenths as nat + 999);
            assert(wide as nat / 1000 == tcn);
            assert(tcn <= self.total as nat);
        }
        let tc: u64 = (wide / 1000) as u64;
        proof {
            assert(tc as nat == tcn);
        }
        let mut s: usize = 0;
        let mut remaining: u64 = tc;
        proof {
            assert(self.counts@.skip(0) =~= self.counts@);
        }
        while s < NUM_SLOTS - 1
            invariant
                self.wf(),
                self.total != 0,
                tcn == target_count(self.total as nat, p_tenths as nat),
                0 <= s < NUM_SLOTS,
                remaining <= tc,
                least_slot(self.counts@, tcn) == s + least_slot(
                    self.counts@.skip(s as int),
                    remaining as nat,
                ),
            decreases NUM_SLOTS - s,
        {
            let c: u64 = self.counts[s];
            if c >= remaining {
                proof {
                    assert(self.counts@.skip(s as int)[0] == self.counts@[s as int]);
                    assert(least_slot(self.counts@.skip(s as int), remaining as nat) == 0);
                }
                return rep_for(s);
            }
            proof {
                assert(self.counts@.skip(s as int)[0] == self.counts@[s as int]);
                assert(self.counts@.skip(s as int).skip(1) =~= self.counts@.skip(s as int + 1));
            }
            remaining = remaining - c;
            s = s + 1;
        }
        proof {
            assert(self.counts@.skip(s as int).len() == 1);
            assert(least_slot(self.counts@.skip(s as int), remaining as nat) == 0);
        }
        rep_for(s)
    }
}

/// Executable representative-value lookup matching `rep_of`.
fn rep_for(s: usize) -> (r: u64)
    requires
        s < NUM_SLOTS,
    ensures
        r == rep_of(s as nat),
{
    if s < LINEAR_SLOTS as usize {
        s as u64
    } else {
        let off: u64 = (s - LINEAR_SLOTS as usize) as u64;
        let b: u64 = off / SUB_SLOTS + 1;
        let sub: u64 = SUB_SLOTS + off % SUB_SLOTS;
        proof {
            assert(off / SUB_SLOTS <= (NUM_BUCKETS - 1)) by (nonlinear_arith)
                requires
                    off <= (NUM_SLOTS - LINEAR_SLOTS - 1),
            ;
        }
        let mut m: u64 = 1;
        let mut i: u64 = 0;
        proof {
            lemma2_to64();
        }
        while i < b
            invariant
                m == pow2(i as nat),
                0 <= i <= b,
                b <= NUM_BUCKETS,
            decreases b - i,
        {
            proof {
                lemma2_to64();
                if i < 18 {
                    lemma_pow2_strictly_increases(i as nat, 18);
                }
            }
            m = m * 2;
            proof {
                lemma_pow2_adds(i as nat, 1);
            }
            i = i + 1;
        }
        proof {
            lemma2_to64();
            if b < NUM_BUCKETS {
                lemma_pow2_strictly_increases(b as nat, NUM_BUCKETS as nat);
            }
            assert((sub + 1) * m <= 2048 * 524288) by (nonlinear_arith)
                requires
                    sub + 1 <= 2048,
                    m <= 524288,
            ;
            assert((sub + 1) * m >= 1) by (nonlinear_arith)
                requires
                    sub + 1 >= 1,
                    m >= 1,
            ;
        }
        (sub + 1) * m - 1
    }
}

/// The rounded-up target share of samples never exceeds the sample count.
proof fn lemma_target_le_total(total: nat, p_tenths: nat)
    requires
        p_tenths <= 1000,
    ensures
        target_count(total, p_tenths) <= total,
{
    assert(total * p_tenths <= total * 1000) by (nonlinear_arith)
        requires
            p_tenths <= 1000,
            total >= 0,
    ;
    lemma_div_is_ordered((total * p_tenths + 999) as int, (total * 1000 + 999) as int, 1000);
    assert((total * 1000 + 999) / 1000 == total) by (nonlinear_arith);
}

/// A larger target share is never reached at an earlier slot.
proof fn lemma_least_slot_monotone(counts: Seq<u64>, t1: nat, t2: nat)
    requires
        t1 <= t2,
    ensures
        least_slot(counts, t1) <= least_slot(counts, t2),
    decreases counts.len(),
{
    if counts.len() <= 1 {
    } else if t1 <= counts[0] {
    } else {
        lemma_least_slot_monotone(counts.skip(1), (t1 - counts[0]) as nat, (t2 - counts[0]) as nat);
    }
}

/// Representative values grow with the slot index.
proof fn lemma_rep_monotone(s1: nat, s2: nat)
    requires
        s1 <= s2,
    ensures
        rep_of(s1) <= rep_of(s2),
{
    lemma2_to64();
    if s2 < LINEAR_SLOTS {
    } else if s1 < LINEAR_SLOTS {
        let b2 = (s2 - LINEAR_SLOTS) as nat / SUB_SLOTS as nat + 1;
        let sub2 = SUB_SLOTS as nat + (s2 - LINEAR_SLOTS) as nat % SUB_SLOTS as nat;
        if b2 > 1 {
            lemma_pow2_strictly_increases(1, b2);
        }
        assert((sub2 + 1) * pow2(b2) >= 1025 * 2) by (nonlinear_arith)
            requires
                sub2 + 1 >= 1025,
                pow2(b2) >= 2,
        ;
        assert(rep_of(s2) >= 2049);
        assert(rep_of(s1) <= 2047);
    } else {
        let off1 = (s1 - LINEAR_SLOTS) as nat;
        let off2 = (s2 - LINEAR_SLOTS) as nat;
        let q1 = off1 / SUB_SLOTS as nat;
        let q2 = off2 / SUB_SLOTS as nat;
        let r1 = off1 % SUB_SLOTS as nat;
        let r2 = off2 % SUB_SLOTS as nat;
        lemma_div_is_ordered(off1 as int, off2 as int, SUB_SLOTS as int);
        vstd::arithmetic::div_mod::lemma_fundamental_div_mod(off1 as int, SUB_SLOTS as int);
        vstd::arithmetic::div_mod::lemma_fundamental_div_mod(off2 as int, SUB_SLOTS as int);
        vstd::arithmetic::power2::lemma_pow2_pos(q1 + 1);
        vstd::arithmetic::power2::lemma_pow2_pos(q2 + 1);
        if q1 == q2 {
            let x = pow2(q1 + 1);
            assert((1024 + r1 + 1) * x <= (1024 + r2 + 1) * x) by (nonlinear_arith)
                requires
                    0 <= r1 <= r2,
                    x >= 1,
            ;
            assert((1024 + r1 + 1) * x >= 1) by (nonlinear_arith)
                requires
                    r1 >= 0,
                    x >= 1,
            ;
            assert(rep_of(s1) == ((1024 + r1 + 1) * x - 1) as nat);
            assert(rep_of(s2) == ((1024 + r2 + 1) * x - 1) as nat);
        } else {
            let x = pow2(q1 + 1);
            let y = pow2(q2 + 1);
            lemma_pow2_adds(q1 + 1, 1);
            if q1 + 2 < q2 + 1 {
                lemma_pow2_strictly_increases(q1 + 2, q2 + 1);
            }
            assert(pow2(q1 + 2) == 2 * x);
            assert(y >= 2 * x);
            assert(r1 < 1024);
            assert((1024 + r1 + 1) * x <= 2048 * x) by (nonlinear_arith)
                requires
                    0 <= r1 < 1024,
                    x >= 1,
            ;
            assert((1024 + r2 + 1) * y >= 1025 * y) by (nonlinear_arith)
                requires
                    r2 >= 0,
                    y >= 1,
            ;
            assert(1025 * y >= 1025 * (2 * x));
            assert(1025 * (2 * x) > 2048 * x);
            assert((1024 + r1 + 1) * x >= 1) by (nonlinear_arith)
                requires
                    r1 >= 0,
                    x >= 1,
            ;
            assert(rep_of(s1) == ((1024 + r1 + 1) * x - 1) as nat);
            assert(rep_of(s2) == ((1024 + r2 + 1) * y - 1) as nat);
            assert(rep_of(s1) <= rep_of(s2));
        }
    }
}

/// Percentile queries are monotone: a higher percentile never reports a
/// smaller latency, whatever the histogram holds.
pub proof fn lemma_percentile_monotone(counts: Seq<u64>, total: nat, p1: nat, p2: nat)
    requires
        p1 <= p2,
    ensures
        percentile_spec(counts, total, p1) <= percentile_spec(counts, total, p2),
{
    if total != 0 {
        assert(total * p1 <= total * p2) by (nonlinear_arith)
            requires
                p1 <= p2,
                total >= 0,
        ;
        lemma_div_is_ordered((total * p1 + 999) as int, (total * p2 + 999) as int, 1000);
        lemma_least_slot_monotone(
            counts,
            target_count(total, p1),
            target_count(total, p2),
        );
        lemma_rep_monotone(
            least_slot(counts, target_count(total, p1)),
            least_slot(counts, target_count(total, p2)),
        );
    }
}

/// Executable slot lookup for a value already clamped into range.
fn slot_for(v: u64) -> (r: usize)
    requires
        LOWEST_VALUE <= v <= HIGHEST_VALUE,
    ensures
        r == slot_of(v as nat),
        r < NUM_SLOTS,
{
    let mut x: u64 = v;
    let mut b: u64 = 0;
    proof {
        lemma2_to64();
        assert(v as nat / 1 == v as nat) by (nonlinear_arith);
    }
    while x >= LINEAR_SLOTS
        invariant
            LOWEST_VALUE <= v <= HIGHEST_VALUE,
            bucket_of(v as nat) == b + bucket_of(x as nat),
            x as nat == v as nat / pow2(b as nat),
            b > 0 ==> x >= SUB_SLOTS,
            b <= 64,
        decreases x,
    {
        proof {
            vstd::arithmetic::power2::lemma_pow2_pos(b as nat);
            lemma_pow2_adds(b as nat, 1);
            lemma_div_denominator(v as int, pow2(b as nat) as int, 2);
            assert(pow2(1) == 2) by {
                lemma2_to64();
            }
            lemma_pow2_bound(v as nat, b as nat, x as nat);
        }
        x = x / 2;
        b = b + 1;
    }
    if b == 0 {
        v as usize
    } else {
        proof {
            lemma_bucket_le_max(v as nat, b as nat, x as nat);
        }
        (LINEAR_SLOTS as usize) + ((b - 1) as usize) * (SUB_SLOTS as usize) + (x as usize
            - SUB_SLOTS as usize)
    }
}

/// While the scan has not yet left the linear region, the number of
/// doublings stays below 64.
proof fn lemma_pow2_bound(v: nat, b: nat, x: nat)
    requires
        x == v / pow2(b),
        x >= LINEAR_SLOTS,
        v <= HIGHEST_VALUE,
    ensures
        b + 1 <= 64,
{
    if b + 1 > 64 {
        lemma_pow2_strictly_increases(31, b);
        lemma2_to64();
        assert(pow2(31) > HIGHEST_VALUE);
        vstd::arithmetic::power2::lemma_pow2_pos(31);
        lemma_div_is_ordered_by_denominator_local(v, pow2(31), pow2(b));
        assert(v / pow2(b) <= v / pow2(31));
        assert(v / pow2(31) == 0) by {
            vstd::arithmetic::div_mod::lemma_basic_div(v as int, pow2(31) as int);
        }
    }
}

/// Dividing by a larger denominator cannot give a larger quotient.
proof fn lemma_div_is_ordered_by_denominator_local(x: nat, small: nat, large: nat)
    requires
        small > 0,
        large >= small,
    ensures
        x / large <= x / small,
{
    vstd::arithmetic::div_mod::lemma_div_is_ordered_by_denominator(x as int, small as int, large as int);
}

/// After the scan ends, the bucket index is within range and the sub-slot
/// lies in the upper half of the linear region.
proof fn lemma_bucket_le_max(v: nat, b: nat, x: nat)
    requires
        x == v / pow2(b),
        x < LINEAR_SLOTS,
        b > 0 ==> x >= SUB_SLOTS,
        b > 0,
        v <= HIGHEST_VALUE,
    ensures
        b <= NUM_BUCKETS,
        SUB_SLOTS <= x < LINEAR_SLOTS,
        LINEAR_SLOTS + (b - 1) * SUB_SLOTS + (x - SUB_SLOTS) < NUM_SLOTS,
{
    if b > NUM_BUCKETS {
        lemma2_to64();
        if b > 20 {
            lemma_pow2_strictly_increases(20, b);
        }
        assert(pow2(b) >= pow2(20));
        assert(x * pow2(b) <= v) by {
            vstd::arithmetic::div_mod::lemma_fundamental_div_mod(v as int, pow2(b) as int);
            assert(v == pow2(b) * (v / pow2(b)) + v % pow2(b));
        }
        assert(x * pow2(b) >= SUB_SLOTS * pow2(20)) by (nonlinear_arith)
            requires
                x >= SUB_SLOTS,
                pow2(b) >= pow2(20),
        ;
        assert(SUB_SLOTS * pow2(20) > HIGHEST_VALUE);
    }
    assert((b - 1) * SUB_SLOTS <= (NUM_BUCKETS - 1) * SUB_SLOTS) by (nonlinear_arith)
        requires
            1 <= b <= NUM_BUCKETS,
    ;
}

/// One slot's count never exceeds the sum of all counts.
proof fn lemma_elem_le_sum(s: Seq<u64>, i: int)
    requires
        0 <= i < s.len(),
    ensures
        s[i] <= sum_counts(s),
    decreases s.len(),
{
    if i == s.len() - 1 {
    } else {
        lemma_elem_le_sum(s.drop_last(), i);
    }
}

/// Incrementing one slot raises the sum by exactly one.
proof fn lemma_sum_update_incr(s: Seq<u64>, i: int)
    requires
        0 <= i < s.len(),
        s[i] < u64::MAX,
    ensures
        sum_counts(s.update(i, (s[i] + 1) as u64)) == sum_counts(s) + 1,
    decreases s.len(),
{
    let t = s.update(i, (s[i] + 1) as u64);
    if i == s.len() - 1 {
        assert(t.drop_last() =~= s.drop_last());
    } else {
        assert(t.drop_last() =~= s.drop_last().update(i, (s[i] + 1) as u64));
        lemma_sum_update_incr(s.drop_last(), i);
    }
}

} // verus!
