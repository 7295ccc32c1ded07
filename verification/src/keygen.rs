use vstd::prelude::*;

verus! {

/// The bytes rand's standard generator produces when seeded with `seed` and
/// asked for `len` bytes. Named rather than spelled out: the stream is a
/// deterministic function of the seed, but its definition is the ChaCha
/// block function.
pub uninterp spec fn rand_bytes_of(seed: u64, len: nat) -> Seq<u8>;

/// Relies on rand's `StdRng`, built with `SeedableRng::seed_from_u64` and
/// read once with `RngCore::fill_bytes`: the construction is deterministic,
/// `fill_bytes` fills the whole buffer, and the generator's stream depends
/// on nothing but the seed, so the bytes returned are a function of the
/// seed and length alone.
#[verifier::external_body]
fn seeded_bytes(seed: u64, len: usize) -> (r: Vec<u8>)
    ensures
        r@ == rand_bytes_of(seed, len as nat),
        r@.len() == len,
{
    let mut rng = <rand::rngs::StdRng as rand::SeedableRng>::seed_from_u64(seed);
    let mut buf = vec![0u8; len];
    rand::RngCore::fill_bytes(&mut rng, &mut buf);
    buf
}

/// 10 raised to `e`.
pub open spec fn pow10(e: nat) -> nat
    decreases e,
{
    if e == 0 {
        1
    } else {
        10 * pow10((e - 1) as nat)
    }
}

/// `v` written as exactly `width` ASCII decimal digits, most significant
/// first, zero-padded on the left and truncated to the low digits when `v`
/// needs more room.
pub open spec fn decimal_padded(v: nat, width: nat) -> Seq<u8>
    decreases width,
{
    if width == 0 {
        Seq::empty()
    } else {
        decimal_padded(v / 10, (width - 1) as nat).push((48 + v % 10) as u8)
    }
}

/// The fixed prefix every synthesized key starts with: `key_`.
pub open spec fn key_prefix() -> Seq<u8> {
    seq![107u8, 101u8, 121u8, 95u8]
}

/// Width of the zero-padded decimal index inside a key.
pub const KEY_INDEX_WIDTH: usize = 16;

/// The key synthesized for an index: the `key_` prefix followed by the
/// index as a 16-digit zero-padded decimal, truncated to `key_size` bytes
/// when longer, right-padded with zero bytes when shorter.
pub open spec fn key_bytes(index: u64, key_size: nat) -> Seq<u8> {
    let base = key_prefix() + decimal_padded(index as nat, KEY_INDEX_WIDTH as nat);
    if key_size <= base.len() {
        base.take(key_size as int)
    } else {
        base + Seq::new((key_size - base.len()) as nat, |i: int| 0u8)
    }
}

/// The per-index seed the value stream is drawn from: the run's seed mixed
/// with the key index, so every `(seed, index)` pair addresses its own
/// deterministic byte stream.
pub open spec fn value_seed(seed: u64, index: u64) -> u64 {
    seed ^ index
}

/// Deterministic key/value synthesis for one run: all keys and values are
/// functions of the configured seed, the record sizes and the key index
/// alone, so repeated runs see byte-identical data.
pub struct KeyValueGenerator {
    /// The run's seed; both phases of a run use the same one.
    pub seed: u64,
    /// Exact key length in bytes.
    pub key_size: usize,
    /// Exact value length in bytes.
    pub value_size: usize,
}

impl KeyValueGenerator {
    /// Builds a generator for one run.
    pub fn new(seed: u64, key_size: usize, value_size: usize) -> (r: KeyValueGenerator)
        ensures
            r.seed == seed,
            r.key_size == key_size,
            r.value_size == value_size,
    {
        KeyValueGenerator { seed, key_size, value_size }
    }

    /// The key for an index: a function of the index and key size alone, so
    /// two calls with the same index always agree, whatever happened in
    /// between.
    pub fn key_at(&self, index: u64) -> (r: Vec<u8>)
        ensures
            r@ == key_bytes(index, self.key_size as nat),
            r@.len() == self.key_size,
    {
        let mut out: Vec<u8> = Vec::new();
        out.push(107);
        out.push(101);
        out.push(121);
        out.push(95);
        assert(out@ =~= key_prefix());
        let mut tmp: Vec<u8> = Vec::new();
        let mut v: u64 = index;
        let mut k: usize = 0;
        proof {
            assert(pow10(0) == 1);
            assert(index as nat / 1 == index as nat) by (nonlinear_arith);
        }
        while k < KEY_INDEX_WIDTH
            invariant
                k == tmp.len(),
                0 <= k <= KEY_INDEX_WIDTH,
                v == index as nat / pow10(k as nat),
                forall|j: int|
                    0 <= j < k ==> tmp@[j] == (48 + (index as nat / pow10(j as nat)) % 10) as u8,
            decreases KEY_INDEX_WIDTH - k,
        {
            let d: u8 = (v % 10) as u8;
            tmp.push(48 + d);
            proof {
                lemma_div_step(index as nat, v as nat, k as nat);
            }
            v = v / 10;
            k = k + 1;
        }
        let mut j: usize = 0;
        while j < KEY_INDEX_WIDTH
            invariant
                tmp@.len() == KEY_INDEX_WIDTH,
                forall|t: int|
                    0 <= t < KEY_INDEX_WIDTH ==> tmp@[t] == (48 + (index as nat / pow10(
                        t as nat,
                    )) % 10) as u8,
                0 <= j <= KEY_INDEX_WIDTH,
                out@.len() == key_prefix().len() + j,
                out@.take(key_prefix().len() as int) =~= key_prefix(),
                forall|t: int|
                    0 <= t < j ==> out@[key_prefix().len() + t] == decimal_padded(
                        index as nat,
                        KEY_INDEX_WIDTH as nat,
                    )[t],
            decreases KEY_INDEX_WIDTH - j,
        {
            out.push(tmp[KEY_INDEX_WIDTH - 1 - j]);
            proof {
                lemma_decimal_padded_len(index as nat, KEY_INDEX_WIDTH as nat);
                lemma_decimal_padded_digit(index as nat, KEY_INDEX_WIDTH as nat, j as int);
            }
            j = j + 1;
        }
        proof {
            lemma_decimal_padded_len(index as nat, KEY_INDEX_WIDTH as nat);
            assert(out@ =~= key_prefix() + decimal_padded(index as nat, KEY_INDEX_WIDTH as nat));
        }
        let base_len: usize = out.len();
        if self.key_size <= base_len {
            out.truncate(self.key_size);
            proof {
                assert(out@ =~= key_bytes(index, self.key_size as nat));
            }
            out
        } else {
            let mut p: usize = base_len;
            while p < self.key_size
                invariant
                    base_len <= p <= self.key_size,
                    out@.len() == p,
                    out@.take(base_len as int) =~= key_prefix() + decimal_padded(
                        index as nat,
                        KEY_INDEX_WIDTH as nat,
                    ),
                    forall|t: int| base_len <= t < p ==> out@[t] == 0u8,
                decreases self.key_size - p,
            {
                out.push(0);
                p = p + 1;
            }
            proof {
                assert(out@ =~= key_bytes(index, self.key_size as nat));
            }
            out
        }
    }

    /// The value for an index: `value_size` bytes drawn from the stream
    /// seeded by this run's seed and the index, hence a function of
    /// `(seed, index, value_size)` alone.
    pub fn value_at(&self, index: u64) -> (r: Vec<u8>)
        ensures
            r@ == rand_bytes_of(value_seed(self.seed, index), self.value_size as nat),
            r@.len() == self.value_size,
    {
        seeded_bytes(self.seed ^ index, self.value_size)
    }

    /// A constant-filled value buffer for bulk population paths.
    pub fn constant_value(&self, fill: u8) -> (r: Vec<u8>)
        ensures
            r@ == Seq::new(self.value_size as nat, |i: int| fill),
    {
        let mut out: Vec<u8> = Vec::new();
        let mut p: usize = 0;
        while p < self.value_size
            invariant
                0 <= p <= self.value_size,
                out@.len() == p,
                forall|t: int| 0 <= t < p ==> out@[t] == fill,
            decreases self.value_size - p,
        {
            out.push(fill);
            p = p + 1;
        }
        proof {
            assert(out@ =~= Seq::new(self.value_size as nat, |i: int| fill));
        }
        out
    }
}

/// Dividing out one more factor of ten advances the running quotient by one
/// power.
proof fn lemma_div_step(index: nat, v: nat, k: nat)
    requires
        v == index / pow10(k),
    ensures
        v / 10 == index / pow10((k + 1) as nat),
{
    lemma_pow10_pos(k);
    vstd::arithmetic::div_mod::lemma_div_denominator(index as int, pow10(k) as int, 10);
    assert(pow10((k + 1) as nat) == pow10(k) * 10) by {
        lemma_pow10_succ(k);
    }
}

/// `pow10` is positive.
proof fn lemma_pow10_pos(e: nat)
    ensures
        pow10(e) >= 1,
    decreases e,
{
    if e > 0 {
        lemma_pow10_pos((e - 1) as nat);
    }
}

/// Unfolding `pow10` one step from the top.
proof fn lemma_pow10_succ(e: nat)
    ensures
        pow10((e + 1) as nat) == pow10(e) * 10,
    decreases e,
{
    if e > 0 {
        lemma_pow10_succ((e - 1) as nat);
    }
}

/// The rendering is exactly as wide as asked.
proof fn lemma_decimal_padded_len(v: nat, width: nat)
    ensures
        decimal_padded(v, width).len() == width,
    decreases width,
{
    if width > 0 {
        lemma_decimal_padded_len(v / 10, (width - 1) as nat);
    }
}

/// Each digit of the zero-padded decimal rendering, characterized by place
/// value: position `j` (from the most significant end) holds the digit of
/// `v / 10^(width-1-j)`.
proof fn lemma_decimal_padded_digit(v: nat, width: nat, j: int)
    requires
        0 <= j < width,
    ensures
        decimal_padded(v, width)[j] == (48 + (v / pow10((width - 1 - j) as nat)) % 10) as u8,
    decreases width,
{
    let prev = decimal_padded(v / 10, (width - 1) as nat);
    lemma_decimal_padded_len(v / 10, (width - 1) as nat);
    if j == width - 1 {
        assert(pow10(0) == 1);
        assert(decimal_padded(v, width)[j] == (48 + v % 10) as u8);
        assert(v / 1 == v) by (nonlinear_arith);
    } else {
        lemma_decimal_padded_digit(v / 10, (width - 1) as nat, j);
        assert(decimal_padded(v, width)[j] == prev[j]);
        let e = (width - 2 - j) as nat;
        lemma_pow10_pos(e);
        vstd::arithmetic::div_mod::lemma_div_denominator(v as int, 10, pow10(e) as int);
        lemma_pow10_succ(e);
        assert((v / 10) / pow10(e) == v / pow10((e + 1) as nat));
    }
}

} // verus!
