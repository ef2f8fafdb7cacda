//! The compact encoding packs a big unsigned magnitude into 32 bits: the top
//! byte is the magnitude's length in bytes, the low 23 bits are its leading
//! mantissa bytes (bit 23 is a sign flag and is dropped).
use std::ops::Shl;

use ethereum_types::U512;
use vstd::arithmetic::power2::*;
use vstd::arithmetic::div_mod::{
    lemma_div_is_ordered_by_denominator, lemma_fundamental_div_mod_converse, lemma_small_mod,
};
use vstd::bits::lemma_u32_shr_is_div;
use vstd::prelude::*;

verus! {

/// Value of little-endian 64-bit limbs: `s[0] + 2^64 * s[1] + ...`.
pub open spec fn limbs_value(s: Seq<u64>) -> nat
    decreases s.len(),
{
    if s.len() == 0 {
        0
    } else {
        s[0] as nat + pow2(64) * limbs_value(s.drop_first())
    }
}

/// An unsigned 512-bit integer, held as eight little-endian 64-bit limbs
/// (the layout of `ethereum_types::U512`).
#[derive(Clone, Copy, Debug, PartialEq, Eq)]
pub struct Magnitude {
    pub limbs: [u64; 8],
}

impl View for Magnitude {
    type V = nat;

    open spec fn view(&self) -> nat {
        limbs_value(self.limbs@)
    }
}

/// Relies on `U512::from(u32)`: the value lands in the lowest limb, the others
/// are zero.
#[verifier::external_body]
fn widen(w: u32) -> (r: [u64; 8])
    ensures
        r@ == seq![w as u64, 0u64, 0u64, 0u64, 0u64, 0u64, 0u64, 0u64],
{
    U512::from(w).0
}

/// Relies on `<U512 as Shl<u32>>::shl`: shifts left by `shift` bits, and the
/// bits pushed past bit 511 are lost (a shift of 512 or more gives zero).
#[verifier::external_body]
fn shift_left(limbs: [u64; 8], shift: u32) -> (r: [u64; 8])
    ensures
        limbs_value(r@) == (limbs_value(limbs@) * pow2(shift as nat)) % pow2(512),
{
    U512(limbs).shl(shift).0
}

/// The length byte: bits 31 to 24 of the compact value.
pub open spec fn compact_size(compact: u32) -> nat {
    (compact >> 24u32) as nat
}

/// The mantissa: bits 22 to 0 of the compact value (bit 23 is not part of it).
pub open spec fn compact_word(compact: u32) -> nat {
    (compact & 0x007f_ffffu32) as nat
}

/// The magnitude a compact value stands for, in 512 bits: with a length of
/// three bytes or fewer the mantissa loses its low bytes; with a longer one it
/// is moved up by the missing bytes, and what passes bit 511 is lost.
pub open spec fn decoded(compact: u32) -> nat {
    let size = compact_size(compact);
    let word = compact_word(compact);
    if size <= 3 {
        word / pow2((8 * (3 - size)) as nat)
    } else {
        (word * pow2((8 * (size - 3)) as nat)) % pow2(512)
    }
}

/// Limbs that are all zero are worth zero.
proof fn lemma_zero_limbs(s: Seq<u64>)
    requires
        forall|i: int| 0 <= i < s.len() ==> s[i] == 0,
    ensures
        limbs_value(s) == 0,
    decreases s.len(),
{
    if s.len() > 0 {
        assert(s[0] == 0);
        lemma_zero_limbs(s.drop_first());
        assert(pow2(64) * limbs_value(s.drop_first()) == 0);
    }
}

/// A single low limb holds its own value.
proof fn lemma_low_limb_value(w: u64)
    ensures
        limbs_value(seq![w, 0u64, 0u64, 0u64, 0u64, 0u64, 0u64, 0u64]) == w,
{
    let s = seq![w, 0u64, 0u64, 0u64, 0u64, 0u64, 0u64, 0u64];
    assert(s[0] == w);
    lemma_zero_limbs(s.drop_first());
    assert(pow2(64) * limbs_value(s.drop_first()) == 0);
}

/// Decodes a compact value into its 512-bit magnitude.
pub fn set_compact(compact: u32) -> (r: Magnitude)
    ensures
        r@ == decoded(compact),
{
    let size: u32 = compact >> 24;
    let mut word: u32 = compact & 0x007f_ffff;
    assert(size <= 255) by (bit_vector)
        requires
            size == compact >> 24u32,
    ;
    if size <= 3 {
        let shift: u32 = 8 * (3 - size);
        proof {
            lemma_u32_shr_is_div(word, shift);
        }
        word = word >> shift;
        let limbs = widen(word);
        proof {
            lemma_low_limb_value(word as u64);
        }
        Magnitude { limbs }
    } else {
        let limbs = widen(word);
        proof {
            lemma_low_limb_value(word as u64);
        }
        Magnitude { limbs: shift_left(limbs, 8 * (size - 3)) }
    }
}

/// Limbs of one length that are worth the same are the same limbs.
proof fn lemma_limbs_value_injective(s: Seq<u64>, t: Seq<u64>)
    requires
        s.len() == t.len(),
        limbs_value(s) == limbs_value(t),
    ensures
        s =~= t,
    decreases s.len(),
{
    if s.len() > 0 {
        let b = pow2(64) as int;
        lemma2_to64();
        lemma_fundamental_div_mod_converse(limbs_value(s) as int, b, limbs_value(s.drop_first()) as int, s[0] as int);
        lemma_fundamental_div_mod_converse(limbs_value(t) as int, b, limbs_value(t.drop_first()) as int, t[0] as int);
        lemma_limbs_value_injective(s.drop_first(), t.drop_first());
        assert forall|i: int| 0 <= i < s.len() implies s[i] == t[i] by {
            if i > 0 {
                assert(s[i] == s.drop_first()[i - 1]);
                assert(t[i] == t.drop_first()[i - 1]);
            }
        }
    }
}

/// Up to three bytes long, the magnitude is the mantissa shifted right by
/// the bytes the length leaves out.
pub proof fn lemma_short_compact(compact: u32)
    requires
        compact_size(compact) <= 3,
    ensures
        decoded(compact) == ((compact & 0x007f_ffffu32) >> ((8 * (3 - (compact >> 24u32))) as u32)) as nat,
{
    let shift = (8 * (3 - (compact >> 24u32))) as u32;
    lemma_u32_shr_is_div(compact & 0x007f_ffffu32, shift);
}

/// From four to sixty-four bytes long, the magnitude is the mantissa shifted
/// left by the bytes past the third, exactly: nothing passes bit 511.
pub proof fn lemma_long_compact(compact: u32)
    requires
        3 < compact_size(compact) <= 64,
    ensures
        decoded(compact) == compact_word(compact) * pow2((8 * (compact_size(compact) - 3)) as nat),
{
    let shift = (8 * (compact_size(compact) - 3)) as nat;
    let word = compact_word(compact);
    let product = word * pow2(shift);
    assert(compact & 0x007f_ffffu32 < 0x80_0000) by (bit_vector);
    lemma2_to64();
    lemma_pow2_adds(23, shift);
    lemma_pow2_strictly_increases(23 + shift, 512);
    lemma_pow2_pos(shift);
    assert(product < pow2(23) * pow2(shift)) by (nonlinear_arith)
        requires
            word < pow2(23),
            pow2(shift) > 0,
            product == word * pow2(shift),
    ;
    lemma_small_mod(product, pow2(512));
}

/// The magnitude is never negative.
pub proof fn lemma_decoded_non_negative(compact: u32)
    ensures
        decoded(compact) >= 0,
{
}

/// The magnitude fits in 24 bits for a length up to three bytes, and in as
/// many bits as the length gives from four to sixty-four bytes.
pub proof fn lemma_decoded_width(compact: u32)
    ensures
        compact_size(compact) <= 3 ==> decoded(compact) < pow2(24),
        3 < compact_size(compact) <= 64 ==> decoded(compact) < pow2(8 * compact_size(compact)),
{
    let size = compact_size(compact);
    let word = compact_word(compact);
    assert(compact & 0x007f_ffffu32 < 0x80_0000) by (bit_vector);
    lemma2_to64();
    if size <= 3 {
        let shift = (8 * (3 - size)) as nat;
        lemma_pow2_pos(shift);
        lemma_div_is_ordered_by_denominator(word as int, 1, pow2(shift) as int);
    } else if size <= 64 {
        let shift = (8 * (size - 3)) as nat;
        lemma_long_compact(compact);
        lemma_pow2_adds(23, shift);
        lemma_pow2_strictly_increases(23 + shift, 8 * size);
        lemma_pow2_pos(shift);
        assert(word * pow2(shift) < pow2(23) * pow2(shift)) by (nonlinear_arith)
            requires
                word < pow2(23),
                pow2(shift) > 0,
        ;
    }
}

/// Decoding is a function of the compact value: two decodings of one value
/// give the same magnitude, limb for limb.
pub proof fn lemma_decode_deterministic(compact: u32, a: Magnitude, b: Magnitude)
    requires
        a@ == decoded(compact),
        b@ == decoded(compact),
    ensures
        a == b,
{
    lemma_limbs_value_injective(a.limbs@, b.limbs@);
    assert(a.limbs =~= b.limbs);
}

} // verus!
