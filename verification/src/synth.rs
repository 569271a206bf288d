//! Payload synthesizer: deterministic pseudo-random fill with a tunable
//! entropy density. A payload of length `n` gets an entropy prefix produced
//! by a seeded xorshift generator and a compressible all-zero tail; the
//! prefix length is `n * (1 - c)` for a compressibility fraction `c`,
//! rounded down, and the generator fills the prefix one 32-bit word at a
//! time, leaving the last bytes of a partial word untouched.

use vstd::prelude::*;
use vstd::arithmetic::div_mod::{
    lemma_div_is_ordered, lemma_div_multiples_vanish, lemma_fundamental_div_mod,
    lemma_fundamental_div_mod_converse, lemma_mod_bound,
};
use vstd::arithmetic::mul::{lemma_mul_inequality, lemma_mul_is_commutative};
use crate::events::ConfigError;

verus! {

/// Denominator of the fixed-point compressibility fraction: a fraction is
/// given in units of one ten-thousandth.
pub const COMPRESSIBILITY_SCALE: u64 = 10000;

/// One step of the 32-bit xorshift generator.
pub open spec fn xs_step(x: u32) -> u32 {
    let a = x ^ (x << 13u32);
    let b = a ^ (a >> 17u32);
    b ^ (b << 5u32)
}

/// The generator state after `n` steps from the fixed seed.
pub open spec fn xs_state(n: nat) -> u32
    decreases n,
{
    if n == 0 {
        0xdead_beefu32
    } else {
        xs_step(xs_state((n - 1) as nat))
    }
}

/// The `w`-th 32-bit word of the pseudo-random stream.
pub open spec fn prng_word(w: nat) -> u32 {
    xs_state(w + 1)
}

/// Byte `k` (little-endian, `0 <= k < 4`) of the word `x`.
pub open spec fn word_byte(x: u32, k: int) -> u8 {
    if k == 0 {
        x as u8
    } else if k == 1 {
        (x >> 8u32) as u8
    } else if k == 2 {
        (x >> 16u32) as u8
    } else {
        (x >> 24u32) as u8
    }
}

/// The `i`-th byte of the pseudo-random stream.
pub open spec fn prng_byte(i: int) -> u8 {
    word_byte(prng_word((i / 4) as nat), i % 4)
}

proof fn lemma_xs_step_nonzero(x: u32)
    requires
        x != 0,
    ensures
        xs_step(x) != 0,
{
    assert(xs_step(x) != 0) by (bit_vector)
        requires
            x != 0,
    ;
}

/// The generator never degenerates: the xorshift permutation keeps a nonzero
/// state nonzero and the fixed seed is nonzero, so every word of the stream
/// holds non-trivial content.
pub proof fn lemma_prng_word_nonzero(w: nat)
    ensures
        prng_word(w) != 0,
    decreases w,
{
    if w == 0 {
        lemma_xs_step_nonzero(xs_state(0));
    } else {
        lemma_prng_word_nonzero((w - 1) as nat);
        lemma_xs_step_nonzero(xs_state(w));
    }
}

/// Fills the first `prefix_len / 4` whole 32-bit words of `binary` with the
/// pseudo-random stream; every byte past the last whole word of the prefix is
/// left as it was. Each run starts from the same seed, so the written
/// contents depend on `prefix_len` alone.
pub fn fill_prefix_with_xor_prng(binary: &mut Vec<u8>, prefix_len: usize)
    requires
        prefix_len <= old(binary)@.len(),
    ensures
        final(binary)@.len() == old(binary)@.len(),
        forall|i: int|
            0 <= i < 4 * (prefix_len as int / 4) ==> final(binary)@[i] == prng_byte(i),
        forall|i: int|
            4 * (prefix_len as int / 4) <= i < old(binary)@.len()
                ==> final(binary)@[i] == old(binary)@[i],
{
    let n_words = prefix_len / 4;
    proof {
        lemma_fundamental_div_mod(prefix_len as int, 4);
        lemma_mod_bound(prefix_len as int, 4);
    }
    let mut state: u32 = 0xdead_beef;
    let mut w: usize = 0;
    while w < n_words
        invariant
            n_words == prefix_len as int / 4,
            4 * (n_words as int) <= prefix_len,
            prefix_len <= binary@.len(),
            binary@.len() == old(binary)@.len(),
            w <= n_words,
            state == xs_state(w as nat),
            forall|i: int| 0 <= i < 4 * (w as int) ==> binary@[i] == prng_byte(i),
            forall|i: int| 4 * (w as int) <= i < binary@.len() ==> binary@[i] == old(binary)@[i],
        decreases n_words - w,
    {
        let mut x = state;
        x = x ^ (x << 13);
        x = x ^ (x >> 17);
        x = x ^ (x << 5);
        state = x;
        proof {
            assert(state == xs_state((w + 1) as nat));
            assert forall|k: int| 0 <= k < 4 implies prng_byte(4 * (w as int) + k) == word_byte(
                prng_word(w as nat),
                k,
            ) by {
                lemma_fundamental_div_mod_converse(4 * (w as int) + k, 4, w as int, k);
            }
        }
        binary[w * 4] = x as u8;
        binary[w * 4 + 1] = (x >> 8) as u8;
        binary[w * 4 + 2] = (x >> 16) as u8;
        binary[w * 4 + 3] = (x >> 24) as u8;
        w = w + 1;
    }
}

/// Fills all whole 32-bit words of `binary` with the pseudo-random stream,
/// leaving the last `len % 4` bytes untouched.
pub fn fill_with_xor_prng(binary: &mut Vec<u8>)
    ensures
        final(binary)@.len() == old(binary)@.len(),
        forall|i: int|
            0 <= i < 4 * (old(binary)@.len() as int / 4) ==> final(binary)@[i] == prng_byte(i),
        forall|i: int|
            4 * (old(binary)@.len() as int / 4) <= i < old(binary)@.len()
                ==> final(binary)@[i] == old(binary)@[i],
{
    let n = binary.len();
    fill_prefix_with_xor_prng(binary, n);
}

/// A compressibility fraction in `[0, 1]`, held in units of
/// `1 / COMPRESSIBILITY_SCALE`.
#[derive(Clone, Copy, Debug)]
pub struct Compressibility {
    bps: u16,
}

/// Length of the entropy prefix of a payload of length `n` under a
/// compressibility fraction of `bps / COMPRESSIBILITY_SCALE`: the fraction
/// `1 - c` of the payload, rounded down.
pub open spec fn entropy_len_spec(n: int, bps: int) -> int {
    n * (COMPRESSIBILITY_SCALE - bps) / (COMPRESSIBILITY_SCALE as int)
}

impl Compressibility {
    pub closed spec fn bps(self) -> u16 {
        self.bps
    }

    pub open spec fn wf(self) -> bool {
        self.bps() <= COMPRESSIBILITY_SCALE
    }

    /// Validates a compressibility fraction: values above `1.0` (that is,
    /// above `COMPRESSIBILITY_SCALE`) are malformed configuration.
    pub fn new(bps: u16) -> (r: Result<Compressibility, ConfigError>)
        ensures
            bps <= COMPRESSIBILITY_SCALE ==> (r matches Ok(c) && c.bps() == bps),
            bps > COMPRESSIBILITY_SCALE ==> (r matches Err(e) && e
                == ConfigError::InvalidArgument),
    {
        if bps as u64 <= COMPRESSIBILITY_SCALE {
            Ok(Compressibility { bps })
        } else {
            Err(ConfigError::InvalidArgument)
        }
    }

    pub fn bps_value(&self) -> (r: u16)
        ensures
            r == self.bps(),
    {
        self.bps
    }
}

/// Computes the entropy-prefix length for a payload of `n` bytes. The result
/// never exceeds `n`, so the prefix always fits the payload.
pub fn entropy_prefix_len(n: usize, c: &Compressibility) -> (r: usize)
    requires
        c.wf(),
    ensures
        r == entropy_len_spec(n as int, c.bps() as int),
        r <= n,
{
    let scale: u128 = COMPRESSIBILITY_SCALE as u128;
    let factor: u128 = scale - c.bps_value() as u128;
    proof {
        lemma_mul_inequality(factor as int, COMPRESSIBILITY_SCALE as int, n as int);
        lemma_mul_inequality(n as int, u64::MAX as int, COMPRESSIBILITY_SCALE as int);
        lemma_mul_is_commutative(factor as int, n as int);
    }
    let num: u128 = (n as u128) * factor;
    let r128: u128 = num / scale;
    proof {
        let ni = n as int;
        let f = factor as int;
        lemma_mul_inequality(f, COMPRESSIBILITY_SCALE as int, ni);
        lemma_mul_is_commutative(f, ni);
        lemma_mul_is_commutative(COMPRESSIBILITY_SCALE as int, ni);
        lemma_div_is_ordered(
            ni * f,
            ni * (COMPRESSIBILITY_SCALE as int),
            COMPRESSIBILITY_SCALE as int,
        );
        lemma_mul_is_commutative(ni, COMPRESSIBILITY_SCALE as int);
        lemma_div_multiples_vanish(ni, COMPRESSIBILITY_SCALE as int);
        assert(ni * f / (COMPRESSIBILITY_SCALE as int) <= ni);
    }
    r128 as usize
}

/// The `i`-th byte of a synthesized payload of length `n` under
/// compressibility `bps`: the pseudo-random stream over the whole words of
/// the entropy prefix, zero beyond them.
pub open spec fn synth_byte(n: int, bps: int, i: int) -> u8 {
    if i < 4 * (entropy_len_spec(n, bps) / 4) {
        prng_byte(i)
    } else {
        0u8
    }
}

/// Builds an all-zero payload of length `n`.
fn zero_vec(n: usize) -> (r: Vec<u8>)
    ensures
        r@.len() == n,
        forall|i: int| 0 <= i < n ==> r@[i] == 0u8,
{
    let mut v: Vec<u8> = Vec::with_capacity(n);
    while v.len() < n
        invariant
            v@.len() <= n,
            forall|i: int| 0 <= i < v@.len() ==> v@[i] == 0u8,
        decreases n - v@.len(),
    {
        v.push(0u8);
    }
    v
}

/// Synthesizes a payload of `n` bytes: an entropy prefix of
/// `n * (1 - c)` bytes, rounded down and filled whole words at a time from
/// the seeded generator, followed by an all-zero compressible tail. The
/// result is a function of `(n, c)` alone, so repeated calls agree
/// byte for byte.
pub fn synthesize(n: usize, c: &Compressibility) -> (r: Vec<u8>)
    requires
        c.wf(),
    ensures
        r@.len() == n,
        forall|i: int| 0 <= i < n ==> r@[i] == synth_byte(n as int, c.bps() as int, i),
{
    let mut data = zero_vec(n);
    let elen = entropy_prefix_len(n, c);
    fill_prefix_with_xor_prng(&mut data, elen);
    data
}

/// Entropy fraction law: a synthesized payload of length `n` holds the
/// pseudo-random stream on the whole 32-bit words of its entropy prefix of
/// `n * (1 - c)` bytes rounded down, and the constant byte zero everywhere
/// past them; in particular the compressible tail has
/// `n - 4 * (entropy_len / 4)` zero bytes.
pub proof fn lemma_entropy_fraction(n: int, bps: int)
    requires
        0 <= n,
        0 <= bps <= COMPRESSIBILITY_SCALE,
    ensures
        forall|i: int|
            0 <= i < 4 * (entropy_len_spec(n, bps) / 4) ==> synth_byte(n, bps, i) == prng_byte(i),
        forall|i: int|
            4 * (entropy_len_spec(n, bps) / 4) <= i < n ==> synth_byte(n, bps, i) == 0u8,
{
}

/// Determinism law: two payloads that both satisfy the synthesizer's
/// contract for the same `(n, c)` are byte-identical.
pub proof fn lemma_synthesize_deterministic(n: int, bps: int, a: Seq<u8>, b: Seq<u8>)
    requires
        a.len() == n,
        b.len() == n,
        forall|i: int| 0 <= i < n ==> a[i] == synth_byte(n, bps, i),
        forall|i: int| 0 <= i < n ==> b[i] == synth_byte(n, bps, i),
    ensures
        a == b,
{
    assert(a =~= b);
}

} // verus!
