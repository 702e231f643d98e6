use vstd::prelude::*;
use crate::bits::{bit_field, bit_set, get_register_u32, is_flag_set_u32,
    lemma_bit_field_u32_shift_mask};
use crate::register::Register;

verus! {

/// A decoded multiply or multiply-accumulate instruction, covering the long
/// and signed variants. The four registers sit at fixed bit positions; the
/// instruction set permits reusing one register in several roles, so no
/// aliasing constraint is imposed here.
#[derive(Copy, Clone, PartialEq, Eq, Structural, Debug)]
pub struct Multiply {
    pub long: bool,
    pub signed: bool,
    pub accumulate: bool,
    pub set_condition_codes: bool,
    pub operand1: Register,
    pub operand2: Register,
    pub operand3: Register,
    pub destination: Register,
}

impl Multiply {
    /// The decoding of a 32-bit multiply word: four flag bits at 20 to 23 and
    /// four 4-bit register fields.
    pub open spec fn spec_from_bits(w: u32) -> Multiply {
        Multiply {
            long: bit_set(w as nat, 23),
            signed: bit_set(w as nat, 22),
            accumulate: bit_set(w as nat, 21),
            set_condition_codes: bit_set(w as nat, 20),
            destination: Register::spec_from_index(bit_field(w as nat, 16, 4)),
            operand1: Register::spec_from_index(bit_field(w as nat, 12, 4)),
            operand2: Register::spec_from_index(bit_field(w as nat, 8, 4)),
            operand3: Register::spec_from_index(bit_field(w as nat, 0, 4)),
        }
    }

    /// Decodes a 32-bit multiply word. Infallible: the instruction set
    /// reserves no invalid combination at this layer.
    pub fn from_bits(bits: u32) -> (r: Multiply)
        ensures
            r == Multiply::spec_from_bits(bits),
    {
        Multiply {
            long: is_flag_set_u32(bits, 23),
            signed: is_flag_set_u32(bits, 22),
            accumulate: is_flag_set_u32(bits, 21),
            set_condition_codes: is_flag_set_u32(bits, 20),
            destination: get_register_u32(bits, 16),
            operand1: get_register_u32(bits, 12),
            operand2: get_register_u32(bits, 8),
            operand3: get_register_u32(bits, 0),
        }
    }
}

/// Each of the four flag bits of a multiply word acts independently of the
/// register fields: toggling one of bits 20 to 23 changes only the
/// corresponding flag of the decoding, and never a register.
pub proof fn lemma_multiply_flag_independence(w: u32, b: u32)
    requires
        b == 20 || b == 21 || b == 22 || b == 23,
    ensures
        ({
            let before = Multiply::spec_from_bits(w);
            let after = Multiply::spec_from_bits(w ^ (1u32 << b));
            &&& after.destination == before.destination
            &&& after.operand1 == before.operand1
            &&& after.operand2 == before.operand2
            &&& after.operand3 == before.operand3
            &&& (after.long == before.long) == (b != 23)
            &&& (after.signed == before.signed) == (b != 22)
            &&& (after.accumulate == before.accumulate) == (b != 21)
            &&& (after.set_condition_codes == before.set_condition_codes) == (b != 20)
        }),
{
    let w2 = w ^ (1u32 << b);
    lemma_bit_field_u32_shift_mask(w, 16, 4);
    lemma_bit_field_u32_shift_mask(w2, 16, 4);
    lemma_bit_field_u32_shift_mask(w, 12, 4);
    lemma_bit_field_u32_shift_mask(w2, 12, 4);
    lemma_bit_field_u32_shift_mask(w, 8, 4);
    lemma_bit_field_u32_shift_mask(w2, 8, 4);
    lemma_bit_field_u32_shift_mask(w, 0, 4);
    lemma_bit_field_u32_shift_mask(w2, 0, 4);
    assert(((w2 >> 16) & (((1u32 << 4) - 1) as u32)) == ((w >> 16) & (((1u32 << 4)
        - 1) as u32))) by (bit_vector)
        requires
            w2 == w ^ (1u32 << b) && (b == 20 || b == 21 || b == 22 || b == 23),
    ;
    assert(((w2 >> 12) & (((1u32 << 4) - 1) as u32)) == ((w >> 12) & (((1u32 << 4)
        - 1) as u32))) by (bit_vector)
        requires
            w2 == w ^ (1u32 << b) && (b == 20 || b == 21 || b == 22 || b == 23),
    ;
    assert(((w2 >> 8) & (((1u32 << 4) - 1) as u32)) == ((w >> 8) & (((1u32 << 4)
        - 1) as u32))) by (bit_vector)
        requires
            w2 == w ^ (1u32 << b) && (b == 20 || b == 21 || b == 22 || b == 23),
    ;
    assert(((w2 >> 0) & (((1u32 << 4) - 1) as u32)) == ((w >> 0) & (((1u32 << 4)
        - 1) as u32))) by (bit_vector)
        requires
            w2 == w ^ (1u32 << b) && (b == 20 || b == 21 || b == 22 || b == 23),
    ;
    lemma_flag_toggle(w, b, 23);
    lemma_flag_toggle(w, b, 22);
    lemma_flag_toggle(w, b, 21);
    lemma_flag_toggle(w, b, 20);
}

/// Toggling flag bit `b` of a word flips the flag read at `b` and leaves the
/// flag read at any other position in 20 to 23 alone.
proof fn lemma_flag_toggle(w: u32, b: u32, at: u32)
    requires
        b == 20 || b == 21 || b == 22 || b == 23,
        at == 20 || at == 21 || at == 22 || at == 23,
    ensures
        bit_set((w ^ (1u32 << b)) as nat, at as nat) == if at == b {
            !bit_set(w as nat, at as nat)
        } else {
            bit_set(w as nat, at as nat)
        },
{
    let w2 = w ^ (1u32 << b);
    lemma_bit_field_u32_shift_mask(w, at, 1);
    lemma_bit_field_u32_shift_mask(w2, at, 1);
    assert((((w2 >> at) & (((1u32 << 1) - 1) as u32)) == 1) == if at == b {
        !(((w >> at) & (((1u32 << 1) - 1) as u32)) == 1)
    } else {
        (((w >> at) & (((1u32 << 1) - 1) as u32)) == 1)
    }) by (bit_vector)
        requires
            w2 == w ^ (1u32 << b) && (b == 20 || b == 21 || b == 22 || b == 23) && (at == 20 || at
                == 21 || at == 22 || at == 23),
    ;
}

} // verus!
