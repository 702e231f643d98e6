use vstd::prelude::*;
use vstd::arithmetic::power2::{pow2, lemma_pow2_pos, lemma2_to64};
use vstd::arithmetic::div_mod::{lemma_mod_bound, lemma_small_mod};
use vstd::bits::{
    low_bits_mask, lemma_u32_shr_is_div, lemma_u32_shl_is_mul, lemma_u32_low_bits_mask_is_mod,
    lemma_u32_pow2_no_overflow, lemma_u16_shr_is_div, lemma_u16_shl_is_mul,
    lemma_u16_low_bits_mask_is_mod, lemma_u16_pow2_no_overflow,
};
use crate::register::Register;

verus! {

/// The `len`-bit field of `w` that starts at bit `offset`, right-justified.
/// Bit 0 is the least significant bit.
pub open spec fn bit_field(w: nat, offset: nat, len: nat) -> nat {
    (w / pow2(offset)) % pow2(len)
}

/// Whether bit `offset` of `w` is set.
pub open spec fn bit_set(w: nat, offset: nat) -> bool {
    bit_field(w, offset, 1) == 1
}

/// A field of `len` bits is smaller than two to the `len`.
pub proof fn lemma_bit_field_bound(w: nat, offset: nat, len: nat)
    ensures
        bit_field(w, offset, len) < pow2(len),
{
    lemma_pow2_pos(len);
    lemma_mod_bound((w / pow2(offset)) as int, pow2(len) as int);
}

/// Extracting a field is the familiar shift-and-mask on the 32-bit word.
pub proof fn lemma_bit_field_u32_shift_mask(w: u32, offset: u32, len: u32)
    requires
        offset + len <= 32,
        0 < len < 32,
    ensures
        bit_field(w as nat, offset as nat, len as nat) == ((w >> offset) & (((1u32 << len)
            - 1) as u32)),
{
    lemma_u32_shr_is_div(w, offset);
    lemma_u32_pow2_no_overflow(len as nat);
    lemma_u32_shl_is_mul(1u32, len);
    assert((((1u32 << len) - 1) as u32) == low_bits_mask(len as nat) as u32);
    lemma_u32_low_bits_mask_is_mod(w >> offset, len as nat);
}

/// Extracting a field is the familiar shift-and-mask on the 16-bit word.
pub proof fn lemma_bit_field_u16_shift_mask(w: u16, offset: u16, len: u16)
    requires
        offset + len <= 16,
        0 < len < 16,
    ensures
        bit_field(w as nat, offset as nat, len as nat) == ((w >> offset) & (((1u16 << len)
            - 1) as u16)),
{
    lemma_u16_shr_is_div(w, offset);
    lemma_u16_pow2_no_overflow(len as nat);
    lemma_u16_shl_is_mul(1u16, len);
    assert((((1u16 << len) - 1) as u16) == low_bits_mask(len as nat) as u16);
    lemma_u16_low_bits_mask_is_mod(w >> offset, len as nat);
}

/// The right-justified `length`-bit field of `word` starting at bit `offset`.
pub fn get_bits_u32(word: u32, offset: u32, length: u32) -> (r: u32)
    requires
        offset + length <= 32,
    ensures
        r as nat == bit_field(word as nat, offset as nat, length as nat),
{
    if length == 0 {
        proof {
            lemma2_to64();
        }
        0
    } else if length == 32 {
        proof {
            lemma_u32_shr_is_div(word, offset);
            lemma2_to64();
            lemma_small_mod(word as nat, pow2(32));
        }
        word >> offset
    } else {
        proof {
            lemma_bit_field_u32_shift_mask(word, offset, length);
            lemma_u32_pow2_no_overflow(length as nat);
            lemma_u32_shl_is_mul(1u32, length);
        }
        (word >> offset) & ((1u32 << length) - 1)
    }
}

/// The right-justified `length`-bit field of `word` starting at bit `offset`.
pub fn get_bits_u16(word: u16, offset: u16, length: u16) -> (r: u16)
    requires
        offset + length <= 16,
    ensures
        r as nat == bit_field(word as nat, offset as nat, length as nat),
{
    if length == 0 {
        proof {
            lemma2_to64();
        }
        0
    } else if length == 16 {
        proof {
            lemma_u16_shr_is_div(word, offset);
            lemma2_to64();
            lemma_small_mod(word as nat, pow2(16));
        }
        word >> offset
    } else {
        proof {
            lemma_bit_field_u16_shift_mask(word, offset, length);
            lemma_u16_pow2_no_overflow(length as nat);
            lemma_u16_shl_is_mul(1u16, length);
        }
        (word >> offset) & ((1u16 << length) - 1)
    }
}

/// Whether bit `offset` of `word` is set.
pub fn is_flag_set_u32(word: u32, offset: u32) -> (r: bool)
    requires
        offset < 32,
    ensures
        r == bit_set(word as nat, offset as nat),
{
    get_bits_u32(word, offset, 1) == 1
}

/// Whether bit `offset` of `word` is set.
pub fn is_flag_set_u16(word: u16, offset: u16) -> (r: bool)
    requires
        offset < 16,
    ensures
        r == bit_set(word as nat, offset as nat),
{
    get_bits_u16(word, offset, 1) == 1
}

/// The register named by the 4-bit field of `word` starting at bit `offset`.
pub fn get_register_u32(word: u32, offset: u32) -> (r: Register)
    requires
        offset + 4 <= 32,
    ensures
        r == Register::spec_from_index(bit_field(word as nat, offset as nat, 4)),
        r.spec_index() == bit_field(word as nat, offset as nat, 4),
{
    let bits = get_bits_u32(word, offset, 4);
    proof {
        lemma_bit_field_bound(word as nat, offset as nat, 4);
        lemma2_to64();
        Register::lemma_spec_from_index(bit_field(word as nat, offset as nat, 4));
    }
    Register::from_index(bits as usize)
}

/// The register named by the 4-bit field of `word` starting at bit `offset`.
pub fn get_register_u16(word: u16, offset: u16) -> (r: Register)
    requires
        offset + 4 <= 16,
    ensures
        r == Register::spec_from_index(bit_field(word as nat, offset as nat, 4)),
        r.spec_index() == bit_field(word as nat, offset as nat, 4),
{
    let bits = get_bits_u16(word, offset, 4);
    proof {
        lemma_bit_field_bound(word as nat, offset as nat, 4);
        lemma2_to64();
        Register::lemma_spec_from_index(bit_field(word as nat, offset as nat, 4));
    }
    Register::from_index(bits as usize)
}

} // verus!
