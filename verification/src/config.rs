use vstd::prelude::*;

verus! {

/// Error raised when a workload configuration is rejected at load time.
#[derive(Clone, Copy, PartialEq, Eq, Structural, Debug)]
pub enum ConfigError {
    /// The write/read/scan percentages do not sum to exactly 100.
    RatioSumInvalid,
}

/// A workload description: the operation mix, record sizing, target dataset
/// size and run duration. Immutable once validated.
#[derive(Clone, Debug)]
pub struct WorkloadConfig {
    /// Percentage of operations that are writes, in `[0, 100]`.
    pub writes: u32,
    /// Percentage of operations that are point reads, in `[0, 100]`.
    pub reads: u32,
    /// Percentage of operations that are range scans, in `[0, 100]`.
    pub scans: u32,
    /// Key size in bytes; must be positive.
    pub key_size: usize,
    /// Value size in bytes; must be positive.
    pub value_size: usize,
    /// Human-readable dataset size, e.g. `"100GB"`, as a byte sequence.
    pub dataset_size: Vec<u8>,
    /// Run duration in seconds.
    pub duration: u64,
    /// Number of entries fetched per range scan.
    pub scan_length: usize,
}

/// Whether a byte is an ASCII decimal digit.
pub open spec fn is_digit_byte(b: u8) -> bool {
    48 <= b <= 57
}

/// ASCII lower-casing of a single byte.
pub open spec fn lower_byte(b: u8) -> u8 {
    if 65 <= b <= 90 {
        (b + 32) as u8
    } else {
        b
    }
}

/// Length of the leading run of ASCII digits in `s`.
pub open spec fn digit_prefix_len(s: Seq<u8>) -> nat
    decreases s.len(),
{
    if s.len() == 0 || !is_digit_byte(s[0]) {
        0
    } else {
        1 + digit_prefix_len(s.skip(1))
    }
}

/// Numeric value of a sequence of ASCII digit bytes, most significant first.
pub open spec fn digits_value(s: Seq<u8>) -> nat
    decreases s.len(),
{
    if s.len() == 0 {
        0
    } else {
        (digits_value(s.drop_last()) * 10 + (s.last() - 48)) as nat
    }
}

/// The byte multiplier selected by the dataset-size suffix: `gb` maps to
/// 10^9, `mb` to 10^6, anything else to 1. The suffix is case-insensitive.
pub open spec fn unit_of(s: Seq<u8>) -> nat {
    if s.len() >= 2 && lower_byte(s[s.len() - 2]) == 103 && lower_byte(s[s.len() - 1]) == 98 {
        1_000_000_000
    } else if s.len() >= 2 && lower_byte(s[s.len() - 2]) == 109 && lower_byte(s[s.len() - 1]) == 98 {
        1_000_000
    } else {
        1
    }
}

/// Total dataset size in bytes described by a dataset-size string: the
/// leading numeric portion times the suffix unit. A missing or overflowing
/// numeric portion defaults to a single byte.
pub open spec fn dataset_bytes(s: Seq<u8>) -> nat {
    let d = digit_prefix_len(s);
    if d == 0 || digits_value(s.take(d as int)) > u64::MAX {
        1
    } else {
        digits_value(s.take(d as int)) * unit_of(s)
    }
}

/// The number of addressable keys for a dataset size and record shape:
/// dataset bytes divided by the per-record footprint, floored, saturating
/// at the largest representable count.
pub open spec fn total_keys_spec(s: Seq<u8>, key_size: nat, value_size: nat) -> nat {
    let k = dataset_bytes(s) / (key_size + value_size);
    if k > u64::MAX {
        u64::MAX as nat
    } else {
        k
    }
}

impl WorkloadConfig {
    /// The structural invariant every validated configuration satisfies:
    /// the operation mix covers exactly 100% and record sizes are positive.
    pub open spec fn well_formed(self) -> bool {
        &&& self.writes + self.reads + self.scans == 100
        &&& self.key_size > 0
        &&& self.value_size > 0
    }

    /// Checks a configuration at load time. Accepts exactly those
    /// configurations whose percentages sum to 100 (with positive record
    /// sizes); any other combination is rejected before any engine is built.
    pub fn validate(&self) -> (r: Result<(), ConfigError>)
        requires
            self.key_size > 0,
            self.value_size > 0,
        ensures
            r is Ok <==> self.well_formed(),
            r is Err ==> r == Result::<(), ConfigError>::Err(ConfigError::RatioSumInvalid),
    {
        let w = self.writes as u64;
        let r = self.reads as u64;
        let s = self.scans as u64;
        if w + r + s == 100 {
            Ok(())
        } else {
            Err(ConfigError::RatioSumInvalid)
        }
    }

    /// Number of addressable keys: the parsed dataset size in bytes divided
    /// by the footprint of one record, floored, saturating at `u64::MAX`.
    pub fn total_keys(&self) -> (r: u64)
        requires
            self.key_size > 0,
            self.value_size > 0,
        ensures
            r == total_keys_spec(self.dataset_size@, self.key_size as nat, self.value_size as nat),
    {
        let s = &self.dataset_size;
        let n = s.len();
        let ghost sq = s@;
        let mut i: usize = 0;
        let mut acc: u64 = 0;
        let mut overflow: bool = false;
        while i < n && byte_is_digit(s[i])
            invariant
                s@ == sq,
                n == sq.len(),
                0 <= i <= n,
                forall|j: int| 0 <= j < i ==> is_digit_byte(sq[j]),
                !overflow ==> acc == digits_value(sq.take(i as int)),
                overflow ==> digits_value(sq.take(i as int)) > u64::MAX,
            decreases n - i,
        {
            let d = (s[i] - 48) as u64;
            proof {
                assert(sq.take(i + 1).drop_last() =~= sq.take(i as int));
                assert(sq.take(i + 1).last() == sq[i as int]);
            }
            if overflow {
                proof {
                    lemma_digits_value_extend_grows(sq.take(i + 1));
                }
            } else {
                let wide: u128 = acc as u128 * 10 + d as u128;
                if wide > u64::MAX as u128 {
                    overflow = true;
                } else {
                    acc = wide as u64;
                }
            }
            i = i + 1;
        }
        proof {
            lemma_digit_prefix_len_from_scan(sq, i as int);
        }
        let unit: u64 = unit_of_exec(s);
        let bytes: u128 = if i == 0 || overflow {
            1
        } else {
            proof {
                assert(acc * unit <= u64::MAX * u64::MAX) by (nonlinear_arith)
                    requires
                        acc <= u64::MAX,
                        unit <= u64::MAX,
                ;
            }
            acc as u128 * unit as u128
        };
        let footprint: u128 = self.key_size as u128 + self.value_size as u128;
        let total: u128 = bytes / footprint;
        if total > u64::MAX as u128 {
            u64::MAX
        } else {
            total as u64
        }
    }
}

/// Executable check that a byte is an ASCII decimal digit.
fn byte_is_digit(b: u8) -> (r: bool)
    ensures
        r == is_digit_byte(b),
{
    48 <= b && b <= 57
}

/// Executable suffix-unit lookup matching `unit_of`.
fn unit_of_exec(s: &Vec<u8>) -> (r: u64)
    ensures
        r == unit_of(s@),
{
    let n = s.len();
    if n >= 2 {
        let a = lower_byte_exec(s[n - 2]);
        let b = lower_byte_exec(s[n - 1]);
        if a == 103 && b == 98 {
            1_000_000_000
        } else if a == 109 && b == 98 {
            1_000_000
        } else {
            1
        }
    } else {
        1
    }
}

/// Executable ASCII lower-casing matching `lower_byte`.
fn lower_byte_exec(b: u8) -> (r: u8)
    ensures
        r == lower_byte(b),
{
    if 65 <= b && b <= 90 {
        b + 32
    } else {
        b
    }
}

/// Appending a digit to a digit string never shrinks its numeric value.
pub proof fn lemma_digits_value_extend_grows(s: Seq<u8>)
    requires
        s.len() > 0,
        is_digit_byte(s.last()),
    ensures
        digits_value(s) >= digits_value(s.drop_last()),
{
}

/// A scan that saw digits up to `p` and stopped there has found exactly the
/// leading digit run.
pub proof fn lemma_digit_prefix_len_from_scan(s: Seq<u8>, p: int)
    requires
        0 <= p <= s.len(),
        forall|j: int| 0 <= j < p ==> is_digit_byte(s[j]),
        p < s.len() ==> !is_digit_byte(s[p]),
    ensures
        digit_prefix_len(s) == p,
    decreases p,
{
    if p == 0 {
    } else {
        assert(is_digit_byte(s[0]));
        let t = s.skip(1);
        assert forall|j: int| 0 <= j < p - 1 implies is_digit_byte(t[j]) by {
            assert(t[j] == s[j + 1]);
        }
        if p - 1 < t.len() {
            assert(t[p - 1] == s[p]);
        }
        lemma_digit_prefix_len_from_scan(t, p - 1);
    }
}

/// For a dataset-size string of the shape `{N}{gb|mb}` — a non-empty run of
/// digits followed by a two-byte unit suffix — the key count is exactly the
/// numeric value times the suffix unit, divided by the record footprint.
pub proof fn lemma_total_keys_formula(
    digits: Seq<u8>,
    suffix: Seq<u8>,
    key_size: nat,
    value_size: nat,
)
    requires
        digits.len() > 0,
        forall|j: int| 0 <= j < digits.len() ==> is_digit_byte(digits[j]),
        digits_value(digits) <= u64::MAX,
        suffix.len() == 2,
        !is_digit_byte(suffix[0]),
        key_size + value_size > 0,
        digits_value(digits) * unit_of(digits + suffix) / (key_size + value_size) <= u64::MAX,
    ensures
        total_keys_spec(digits + suffix, key_size, value_size) == digits_value(digits) * unit_of(
            digits + suffix,
        ) / (key_size + value_size),
{
    let s = digits + suffix;
    assert forall|j: int| 0 <= j < digits.len() implies is_digit_byte(s[j]) by {
        assert(s[j] == digits[j]);
    }
    assert(s[digits.len() as int] == suffix[0]);
    lemma_digit_prefix_len_from_scan(s, digits.len() as int);
    assert(s.take(digits.len() as int) =~= digits);
}

} // verus!
