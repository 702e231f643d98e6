use vstd::prelude::*;
use crate::bits::{bit_field, bit_set, get_register_u32, is_flag_set_u32,
    lemma_bit_field_u32_shift_mask};
use crate::register::Register;

verus! {

/// The width of a single-data-swap transfer: one byte or one word.
#[derive(Copy, Clone, PartialEq, Eq, Structural, Debug)]
pub enum SwapSize {
    Byte,
    Word,
}

/// A decoded single-data-swap instruction: an atomic exchange between a
/// source register and memory at a base register, into a destination
/// register. Only the descriptor is decoded here; no access is performed.
#[derive(Copy, Clone, PartialEq, Eq, Structural, Debug)]
pub struct Swap {
    pub source: Register,
    pub destination: Register,
    pub base: Register,
    pub size: SwapSize,
}

impl Swap {
    /// The decoding of a 32-bit swap word: three 4-bit register fields, and
    /// bit 22 selecting a byte transfer over a word transfer.
    pub open spec fn spec_from_bits(w: u32) -> Swap {
        Swap {
            source: Register::spec_from_index(bit_field(w as nat, 0, 4)),
            destination: Register::spec_from_index(bit_field(w as nat, 12, 4)),
            base: Register::spec_from_index(bit_field(w as nat, 16, 4)),
            size: if bit_set(w as nat, 22) {
                SwapSize::Byte
            } else {
                SwapSize::Word
            },
        }
    }

    /// Decodes a 32-bit swap word. Infallible: every word has a reading, and
    /// the register fields are read at the same positions whatever the size.
    pub fn from_bits(bits: u32) -> (r: Swap)
        ensures
            r == Swap::spec_from_bits(bits),
    {
        Swap {
            source: get_register_u32(bits, 0),
            destination: get_register_u32(bits, 12),
            base: get_register_u32(bits, 16),
            size: if is_flag_set_u32(bits, 22) {
                SwapSize::Byte
            } else {
                SwapSize::Word
            },
        }
    }
}

/// The three register fields of a swap word are read at the same positions
/// whatever the size: toggling bit 22 flips the decoded size and changes
/// nothing else.
pub proof fn lemma_swap_registers_independent_of_size(w: u32)
    ensures
        ({
            let before = Swap::spec_from_bits(w);
            let after = Swap::spec_from_bits(w ^ (1u32 << 22));
            &&& after.source == before.source
            &&& after.destination == before.destination
            &&& after.base == before.base
            &&& after.size != before.size
        }),
{
    let w2 = w ^ (1u32 << 22);
    lemma_bit_field_u32_shift_mask(w, 0, 4);
    lemma_bit_field_u32_shift_mask(w2, 0, 4);
    lemma_bit_field_u32_shift_mask(w, 12, 4);
    lemma_bit_field_u32_shift_mask(w2, 12, 4);
    lemma_bit_field_u32_shift_mask(w, 16, 4);
    lemma_bit_field_u32_shift_mask(w2, 16, 4);
    lemma_bit_field_u32_shift_mask(w, 22, 1);
    lemma_bit_field_u32_shift_mask(w2, 22, 1);
    assert(((w2 >> 0) & (((1u32 << 4) - 1) as u32)) == ((w >> 0) & (((1u32 << 4)
        - 1) as u32))) by (bit_vector)
        requires
            w2 == w ^ (1u32 << 22),
    ;
    assert(((w2 >> 12) & (((1u32 << 4) - 1) as u32)) == ((w >> 12) & (((1u32 << 4)
        - 1) as u32))) by (bit_vector)
        requires
            w2 == w ^ (1u32 << 22),
    ;
    assert(((w2 >> 16) & (((1u32 << 4) - 1) as u32)) == ((w >> 16) & (((1u32 << 4)
        - 1) as u32))) by (bit_vector)
        requires
            w2 == w ^ (1u32 << 22),
    ;
    assert((((w2 >> 22) & (((1u32 << 1) - 1) as u32)) == 1) != (((w >> 22) & (((1u32 << 1)
        - 1) as u32)) == 1)) by (bit_vector)
        requires
            w2 == w ^ (1u32 << 22),
    ;
}

} // verus!
