//! Decoder for fixed-width 32-bit machine instruction words of an ARM-like
//! instruction set.
//!
//! Each decoder is a pure function from a raw word to a structured, typed
//! representation of the instruction, with the one malformed encoding
//! reported as an error rather than guessed at. The bit-layout of every
//! decoder is pinned down by a specification-level decode function, and each
//! executable decoder is proved to return exactly that value.

pub mod bits;
pub mod branch;
pub mod condition;
pub mod data;
pub mod error;
pub mod multiply;
pub mod register;
pub mod shifter;
pub mod swap;

pub use bits::{get_bits_u16, get_bits_u32, get_register_u16, get_register_u32, is_flag_set_u16,
    is_flag_set_u32};
pub use branch::Branch;
pub use condition::ConditionCode;
pub use data::{DataInstruction, DataOpcode};
pub use error::DecodeError;
pub use multiply::Multiply;
pub use register::Register;
pub use shifter::{ShiftOperand, ShiftOperation, ShifterOperand};
pub use swap::{Swap, SwapSize};

use vstd::prelude::*;

verus! {

/// Decoding is pure: each decoder's result is a function of its input alone,
/// with no hidden state, so two decodings of equal inputs are identical.
///
/// Every executable decoder is proved to return exactly its
/// specification-level decoding, and this lemma states that those decodings
/// agree on equal inputs — `w` for the decoders over a full word, `field` for
/// the two shifter-operand readings, `b` for the two 4-bit table lookups.
pub proof fn lemma_decoding_is_pure(w1: u32, w2: u32, field1: u16, field2: u16, b1: u8, b2: u8)
    requires
        w1 == w2,
        field1 == field2,
        b1 == b2,
    ensures
        Branch::spec_from_bits_bx(w1) == Branch::spec_from_bits_bx(w2),
        Branch::spec_from_bits_branch(w1) == Branch::spec_from_bits_branch(w2),
        Multiply::spec_from_bits(w1) == Multiply::spec_from_bits(w2),
        Swap::spec_from_bits(w1) == Swap::spec_from_bits(w2),
        DataInstruction::spec_from_bits(w1) == DataInstruction::spec_from_bits(w2),
        ShifterOperand::spec_from_immediate(field1) == ShifterOperand::spec_from_immediate(field2),
        ShifterOperand::spec_from_register_operand(field1)
            == ShifterOperand::spec_from_register_operand(field2),
        ConditionCode::spec_from_bits(b1 as nat) == ConditionCode::spec_from_bits(b2 as nat),
        DataOpcode::spec_from_bits(b1 as nat) == DataOpcode::spec_from_bits(b2 as nat),
{
}

} // verus!
