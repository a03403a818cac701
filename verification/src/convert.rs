//! Normalization of raw integer samples.
//!
//! Captured samples are stored as IEEE 754 binary32 bit patterns (the
//! normalized 32-bit float convention of the buffer). A raw signed 16-bit
//! sample `v` normalizes to the value `v / 2^15`, so full scale maps to
//! `-1.0` and `32767/32768`; a raw unsigned 16-bit sample is first re-centred
//! at its origin `2^15`. Every such value is a normal binary32 number (or
//! zero), so the conversion is exact: this module builds the bit pattern by
//! integer arithmetic and proves that the pattern decodes to exactly the
//! intended value.
//!
//! A device that already delivers 32-bit floats needs no conversion: its
//! samples pass through as their own bit patterns.

use vstd::prelude::*;

use vstd::arithmetic::div_mod::{
    lemma_fundamental_div_mod_converse_div,
    lemma_fundamental_div_mod_converse_mod,
};
use vstd::arithmetic::mul::{
    lemma_mul_inequality,
    lemma_mul_strict_inequality,
};
use vstd::arithmetic::power2::{
    lemma2_to64,
    lemma2_to64_rest,
    lemma_pow2_adds,
    lemma_pow2_pos,
    lemma_pow2_strictly_increases,
    lemma_pow2_subtracts,
    lemma_pow2_unfold,
    pow2,
};

verus! {

/// Floor of the base-2 logarithm: the position of the highest set bit of
/// `m`, for `m >= 1`.
pub open spec fn floor_log2(m: nat) -> nat
    decreases m,
{
    if m <= 1 {
        0
    } else {
        (1 + floor_log2((m / 2) as nat)) as nat
    }
}

/// `pow2` is monotone.
proof fn lemma_pow2_increases(e1: nat, e2: nat)
    requires
        e1 <= e2,
    ensures
        pow2(e1) <= pow2(e2),
{
    if e1 < e2 {
        lemma_pow2_strictly_increases(e1, e2);
    }
}

/// `floor_log2(m)` brackets `m` between two neighbouring powers of two.
proof fn lemma_floor_log2_bounds(m: nat)
    requires
        m >= 1,
    ensures
        pow2(floor_log2(m)) <= m < pow2(floor_log2(m) + 1),
    decreases m,
{
    lemma2_to64();
    if m > 1 {
        let h = (m / 2) as nat;
        lemma_floor_log2_bounds(h);
        let k = floor_log2(h);
        lemma_pow2_unfold(k + 1);
        lemma_pow2_unfold(k + 2);
    }
}

/// The bracketing powers of two determine `floor_log2` uniquely.
proof fn lemma_floor_log2_unique(m: nat, k: nat)
    requires
        pow2(k) <= m < pow2(k + 1),
    ensures
        floor_log2(m) == k,
{
    lemma_pow2_pos(k);
    lemma_floor_log2_bounds(m);
    let j = floor_log2(m);
    if j < k {
        lemma_pow2_increases(j + 1, k);
    }
    if j > k {
        lemma_pow2_increases(k + 1, j);
    }
}

/// The binary32 bit pattern that encodes the value `m / 2^15` with sign
/// `neg`, for magnitudes `1 <= m <= 2^15`: sign bit, biased exponent and
/// mantissa, assembled arithmetically. Every such value is a normal binary32
/// number, so the encoding is exact.
pub open spec fn fixed_sample_bits(neg: bool, m: nat) -> u32
    recommends
        1 <= m <= 32768,
{
    let k = floor_log2(m);
    let sign: nat = if neg {
        pow2(31)
    } else {
        0
    };
    (sign + (k + 112) * pow2(23) + (m - pow2(k)) * pow2((23 - k) as nat)) as u32
}

/// The bit pattern a raw signed 16-bit sample normalizes to: the binary32
/// encoding of `v / 2^15`.
pub open spec fn i16_sample_bits(v: int) -> u32
    recommends
        -32768 <= v <= 32767,
{
    if v == 0 {
        0u32
    } else if v < 0 {
        fixed_sample_bits(true, (-v) as nat)
    } else {
        fixed_sample_bits(false, v as nat)
    }
}

/// The bit pattern a raw unsigned 16-bit sample normalizes to: `u` is
/// re-centred at the origin `2^15`, then scaled like a signed sample.
pub open spec fn u16_sample_bits(u: int) -> u32
    recommends
        0 <= u <= 65535,
{
    i16_sample_bits(u - 32768)
}

/// The sign bit of a binary32 pattern.
pub open spec fn bits_negative(b: u32) -> bool {
    b as nat / pow2(31) == 1
}

/// The biased exponent field of a binary32 pattern.
pub open spec fn bits_biased_exp(b: u32) -> nat {
    (b as nat / pow2(23)) % pow2(8)
}

/// The mantissa field of a binary32 pattern.
pub open spec fn bits_mantissa(b: u32) -> nat {
    b as nat % pow2(23)
}

/// The real value a binary32 pattern encodes, scaled by `2^38` so that it
/// stays in the integers. Faithful for every pattern this module produces:
/// zero, and normal numbers whose magnitude lies in `[2^-15, 1]` (biased
/// exponent 112 to 127).
pub open spec fn scaled_sample_value(b: u32) -> int {
    if b == 0 {
        0
    } else {
        let mag = (pow2(23) + bits_mantissa(b)) * pow2((bits_biased_exp(b) - 112) as nat);
        if bits_negative(b) {
            -(mag as int)
        } else {
            mag as int
        }
    }
}

/// The constructed pattern for magnitude `m` decodes to exactly `±m * 2^23`,
/// that is, to the real value `±m / 2^15` scaled by `2^38`.
proof fn lemma_fixed_sample_value(neg: bool, m: nat)
    requires
        1 <= m <= 32768,
    ensures
        scaled_sample_value(fixed_sample_bits(neg, m)) == if neg {
            -(m * pow2(23) as int)
        } else {
            m * pow2(23) as int
        },
{
    lemma2_to64();
    lemma_floor_log2_bounds(m);
    let k = floor_log2(m);
    if k > 15 {
        lemma_pow2_increases(16, k);
    }
    lemma_pow2_unfold(k + 1);
    lemma_pow2_pos(k);
    lemma_pow2_pos((23 - k) as nat);
    lemma_pow2_adds(k, (23 - k) as nat);
    let s: int = if neg {
        1
    } else {
        0
    };
    let em: int = k as int + 112;
    let mant: int = (m - pow2(k)) * pow2((23 - k) as nat);
    assert(mant < pow2(23)) by {
        lemma_mul_strict_inequality(
            m - pow2(k),
            pow2(k) as int,
            pow2((23 - k) as nat) as int,
        );
    }
    assert(em * pow2(23) <= 127 * pow2(23)) by {
        lemma_mul_inequality(em, 127, pow2(23) as int);
    }
    let b_int: int = s * pow2(31) + em * pow2(23) + mant;
    assert(112 * pow2(23) <= em * pow2(23)) by {
        lemma_mul_inequality(112, em, pow2(23) as int);
    }
    let b = fixed_sample_bits(neg, m);
    assert(b == b_int) by {
        assert(s * pow2(31) == if neg { pow2(31) as int } else { 0int });
    }
    assert(b != 0);
    // Field extraction: b = (s * 2^8 + em) * 2^23 + mant.
    let q: int = s * pow2(8) + em;
    assert(b_int == q * pow2(23) + mant) by (nonlinear_arith)
        requires
            b_int == s * pow2(31) + em * pow2(23) + mant,
            q == s * pow2(8) + em,
            pow2(8) * pow2(23) == pow2(31),
    {
    }
    lemma_fundamental_div_mod_converse_mod(b_int, pow2(23) as int, q, mant);
    lemma_fundamental_div_mod_converse_div(b_int, pow2(23) as int, q, mant);
    assert(bits_mantissa(b) == mant);
    lemma_fundamental_div_mod_converse_mod(q, pow2(8) as int, s, em);
    assert(bits_biased_exp(b) == em);
    assert(em * pow2(23) + mant < pow2(31));
    lemma_fundamental_div_mod_converse_div(b_int, pow2(31) as int, s, em * pow2(23) + mant);
    assert(bits_negative(b) == neg);
    // Value: (2^23 + mant) * 2^k == m * 2^23.
    assert((pow2(23) + mant) * pow2(k) == m * pow2(23)) by (nonlinear_arith)
        requires
            mant == (m - pow2(k)) * pow2((23 - k) as nat),
            pow2(k) * pow2((23 - k) as nat) == pow2(23),
            pow2(k) <= m,
    {
    }
    assert((bits_biased_exp(b) - 112) as nat == k);
}

/// Law: normalization of a signed 16-bit sample is exact. The pattern built
/// for `v` encodes exactly the value `v / 2^15`; scaled by `2^38`, that is
/// `v * 2^23`.
pub proof fn lemma_i16_sample_exact(v: int)
    requires
        -32768 <= v <= 32767,
    ensures
        scaled_sample_value(i16_sample_bits(v)) == v * pow2(23),
{
    if v < 0 {
        lemma_fixed_sample_value(true, (-v) as nat);
        assert((-v) * pow2(23) == -(v * pow2(23))) by (nonlinear_arith);
    } else if v > 0 {
        lemma_fixed_sample_value(false, v as nat);
    }
}

/// Law: normalization of an unsigned 16-bit sample is exact. The pattern
/// built for `u` encodes exactly the value `(u - 2^15) / 2^15`; scaled by
/// `2^38`, that is `(u - 2^15) * 2^23`.
pub proof fn lemma_u16_sample_exact(u: int)
    requires
        0 <= u <= 65535,
    ensures
        scaled_sample_value(u16_sample_bits(u)) == (u - 32768) * pow2(23),
{
    lemma_i16_sample_exact(u - 32768);
}

/// Law: full scale maps to the conventional bounds. The signed minimum
/// encodes exactly `-1.0` (scaled: `-2^38`), and the pattern is the binary32
/// constant `0xBF80_0000`; the signed maximum encodes `32767 / 32768`,
/// within `2^-15` (scaled: `2^23`) of `+1.0`. The unsigned range re-centres
/// onto the same two values.
pub proof fn lemma_full_scale_bounds()
    ensures
        scaled_sample_value(i16_sample_bits(-32768)) == -pow2(38),
        scaled_sample_value(i16_sample_bits(32767)) == pow2(38) - pow2(23),
        scaled_sample_value(u16_sample_bits(0)) == -pow2(38),
        scaled_sample_value(u16_sample_bits(65535)) == pow2(38) - pow2(23),
        i16_sample_bits(-32768) == 0xBF80_0000u32,
{
    lemma2_to64();
    lemma2_to64_rest();
    lemma_i16_sample_exact(-32768);
    lemma_i16_sample_exact(32767);
    lemma_u16_sample_exact(0);
    lemma_u16_sample_exact(65535);
    assert(32768 * pow2(23) == pow2(38)) by {
        lemma_pow2_adds(15, 23);
    }
    assert(32767 * pow2(23) == pow2(38) - pow2(23)) by (nonlinear_arith)
        requires
            32768 * pow2(23) == pow2(38),
    {
    }
    // The concrete pattern for -1.0: sign bit set, biased exponent 127.
    assert(i16_sample_bits(-32768) == 0xBF80_0000u32) by {
        lemma_floor_log2_unique(32768, 15);
        assert(fixed_sample_bits(true, 32768) == (pow2(31) + (15nat + 112) * pow2(23) + (32768
            - pow2(15)) * pow2(8)) as u32);
    }
}

/// Normalizes one raw signed 16-bit sample to its binary32 bit pattern.
pub fn sample_from_i16(v: i16) -> (r: u32)
    ensures
        r == i16_sample_bits(v as int),
{
    if v == 0 {
        return 0;
    }
    let neg: bool = v < 0;
    let m: u32 = if neg {
        (-(v as i32)) as u32
    } else {
        v as u32
    };
    assert(1 <= m <= 32768);
    proof {
        lemma2_to64();
    }
    let mut k: u32 = 0;
    let mut pow: u32 = 1;
    while pow * 2 <= m
        invariant
            1 <= m <= 32768,
            k <= 15,
            pow == pow2(k as nat),
            pow <= m,
        decreases 16 - k,
    {
        proof {
            lemma2_to64();
            if k + 1 > 15 {
                lemma_pow2_increases(16, (k + 1) as nat);
                lemma_pow2_unfold((k + 1) as nat);
                assert(false);
            }
            lemma_pow2_unfold((k + 1) as nat);
        }
        pow = pow * 2;
        k = k + 1;
    }
    proof {
        lemma_pow2_unfold((k + 1) as nat);
        lemma_floor_log2_unique(m as nat, k as nat);
        lemma_pow2_subtracts(k as nat, 23);
        lemma2_to64();
        lemma_pow2_pos((23 - k) as nat);
        assert((m - pow) * (0x0080_0000u32 / pow) < pow2(23)) by {
            lemma_mul_strict_inequality(
                m - pow,
                pow as int,
                pow2((23 - k) as nat) as int,
            );
            lemma_pow2_adds(k as nat, (23 - k) as nat);
        }
        assert((k + 112) * 0x0080_0000 <= 127 * 0x0080_0000) by {
            lemma_mul_inequality(k + 112, 127, 0x0080_0000);
        }
    }
    let sign_part: u32 = if neg {
        0x8000_0000
    } else {
        0
    };
    let mant: u32 = (m - pow) * (0x0080_0000 / pow);
    let r: u32 = sign_part + (k + 112) * 0x0080_0000 + mant;
    proof {
        assert(r == fixed_sample_bits(neg, m as nat));
    }
    r
}

/// Normalizes one raw unsigned 16-bit sample: re-centres at the origin
/// `2^15`, then scales like a signed sample.
pub fn sample_from_u16(u: u16) -> (r: u32)
    ensures
        r == u16_sample_bits(u as int),
{
    let centred: i32 = (u as i32) - 32768;
    sample_from_i16(centred as i16)
}

/// The per-block conversion of signed 16-bit samples: each raw sample's bit
/// pattern, in delivery order.
pub open spec fn i16_block_bits(block: Seq<i16>) -> Seq<u32> {
    block.map_values(|s: i16| i16_sample_bits(s as int))
}

/// The per-block conversion of unsigned 16-bit samples.
pub open spec fn u16_block_bits(block: Seq<u16>) -> Seq<u32> {
    block.map_values(|s: u16| u16_sample_bits(s as int))
}

/// Converts one callback block of signed 16-bit samples, preserving order.
pub fn convert_block_i16(block: &[i16]) -> (r: Vec<u32>)
    ensures
        r@ == i16_block_bits(block@),
{
    let mut r: Vec<u32> = Vec::new();
    let mut i: usize = 0;
    while i < block.len()
        invariant
            i <= block@.len(),
            r@.len() == i,
            forall|j: int| 0 <= j < i ==> r@[j] == i16_sample_bits(block@[j] as int),
        decreases block@.len() - i,
    {
        let s = block[i];
        r.push(sample_from_i16(s));
        i += 1;
    }
    assert(r@ =~= i16_block_bits(block@));
    r
}

/// Converts one callback block of unsigned 16-bit samples, preserving order.
pub fn convert_block_u16(block: &[u16]) -> (r: Vec<u32>)
    ensures
        r@ == u16_block_bits(block@),
{
    let mut r: Vec<u32> = Vec::new();
    let mut i: usize = 0;
    while i < block.len()
        invariant
            i <= block@.len(),
            r@.len() == i,
            forall|j: int| 0 <= j < i ==> r@[j] == u16_sample_bits(block@[j] as int),
        decreases block@.len() - i,
    {
        let s = block[i];
        r.push(sample_from_u16(s));
        i += 1;
    }
    assert(r@ =~= u16_block_bits(block@));
    r
}

} // verus!
