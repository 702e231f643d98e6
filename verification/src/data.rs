use vstd::prelude::*;
use vstd::arithmetic::power2::lemma2_to64;
use crate::bits::{bit_field, bit_set, get_bits_u32, get_register_u32, is_flag_set_u32,
    lemma_bit_field_bound};
use crate::error::DecodeError;
use crate::register::Register;
use crate::shifter::ShifterOperand;

verus! {

/// The 16 ALU operations of a data-processing instruction, in the order of
/// their 4-bit encoding 0b0000 to 0b1111. Each carries a fixed three-letter
/// mnemonic.
#[derive(Copy, Clone, PartialEq, Eq, Structural, Debug)]
pub enum DataOpcode {
    And,
    ExclusiveOr,
    Subtract,
    ReverseSubtract,
    Add,
    AddWithCarry,
    SubtractWithCarry,
    ReverseSubtractWithCarry,
    Test,
    TestEquivalence,
    Compare,
    CompareNegated,
    Or,
    Move,
    BitClear,
    MoveNot,
}

impl DataOpcode {
    /// The operation selected by a 4-bit encoding.
    pub open spec fn spec_from_bits(b: nat) -> DataOpcode {
        if b == 0 {
            DataOpcode::And
        } else if b == 1 {
            DataOpcode::ExclusiveOr
        } else if b == 2 {
            DataOpcode::Subtract
        } else if b == 3 {
            DataOpcode::ReverseSubtract
        } else if b == 4 {
            DataOpcode::Add
        } else if b == 5 {
            DataOpcode::AddWithCarry
        } else if b == 6 {
            DataOpcode::SubtractWithCarry
        } else if b == 7 {
            DataOpcode::ReverseSubtractWithCarry
        } else if b == 8 {
            DataOpcode::Test
        } else if b == 9 {
            DataOpcode::TestEquivalence
        } else if b == 10 {
            DataOpcode::Compare
        } else if b == 11 {
            DataOpcode::CompareNegated
        } else if b == 12 {
            DataOpcode::Or
        } else if b == 13 {
            DataOpcode::Move
        } else if b == 14 {
            DataOpcode::BitClear
        } else {
            DataOpcode::MoveNot
        }
    }

    /// The 4-bit encoding of an operation: the inverse of `spec_from_bits`.
    pub open spec fn spec_to_bits(self) -> nat {
        match self {
            DataOpcode::And => 0,
            DataOpcode::ExclusiveOr => 1,
            DataOpcode::Subtract => 2,
            DataOpcode::ReverseSubtract => 3,
            DataOpcode::Add => 4,
            DataOpcode::AddWithCarry => 5,
            DataOpcode::SubtractWithCarry => 6,
            DataOpcode::ReverseSubtractWithCarry => 7,
            DataOpcode::Test => 8,
            DataOpcode::TestEquivalence => 9,
            DataOpcode::Compare => 10,
            DataOpcode::CompareNegated => 11,
            DataOpcode::Or => 12,
            DataOpcode::Move => 13,
            DataOpcode::BitClear => 14,
            DataOpcode::MoveNot => 15,
        }
    }

    /// The fixed three-letter mnemonic of an operation.
    pub open spec fn spec_mnemonic(self) -> Seq<char> {
        match self {
            DataOpcode::And => "and"@,
            DataOpcode::ExclusiveOr => "eor"@,
            DataOpcode::Subtract => "sub"@,
            DataOpcode::ReverseSubtract => "rsb"@,
            DataOpcode::Add => "add"@,
            DataOpcode::AddWithCarry => "adc"@,
            DataOpcode::SubtractWithCarry => "sbc"@,
            DataOpcode::ReverseSubtractWithCarry => "rsc"@,
            DataOpcode::Test => "tst"@,
            DataOpcode::TestEquivalence => "teq"@,
            DataOpcode::Compare => "cmp"@,
            DataOpcode::CompareNegated => "cmn"@,
            DataOpcode::Or => "orr"@,
            DataOpcode::Move => "mov"@,
            DataOpcode::BitClear => "bic"@,
            DataOpcode::MoveNot => "mvn"@,
        }
    }

    /// Decoding a 4-bit value and encoding the result returns the value:
    /// together with `lemma_to_bits_from_bits` this makes `spec_from_bits` a
    /// bijection between the 4-bit domain and the 16 operations.
    pub proof fn lemma_from_bits_to_bits(b: nat)
        requires
            b < 16,
        ensures
            DataOpcode::spec_from_bits(b).spec_to_bits() == b,
    {
    }

    /// Encoding an operation and decoding the result returns the operation,
    /// and every encoding is a 4-bit value.
    pub proof fn lemma_to_bits_from_bits(op: DataOpcode)
        ensures
            op.spec_to_bits() < 16,
            DataOpcode::spec_from_bits(op.spec_to_bits()) == op,
    {
    }

    /// The ALU operation selected by the 4-bit value `bits`. All 16 codes are
    /// valid; a wider value is a caller contract violation.
    pub fn from_bits(bits: u8) -> (r: DataOpcode)
        requires
            bits < 16,
        ensures
            r == DataOpcode::spec_from_bits(bits as nat),
    {
        if bits == 0 {
            DataOpcode::And
        } else if bits == 1 {
            DataOpcode::ExclusiveOr
        } else if bits == 2 {
            DataOpcode::Subtract
        } else if bits == 3 {
            DataOpcode::ReverseSubtract
        } else if bits == 4 {
            DataOpcode::Add
        } else if bits == 5 {
            DataOpcode::AddWithCarry
        } else if bits == 6 {
            DataOpcode::SubtractWithCarry
        } else if bits == 7 {
            DataOpcode::ReverseSubtractWithCarry
        } else if bits == 8 {
            DataOpcode::Test
        } else if bits == 9 {
            DataOpcode::TestEquivalence
        } else if bits == 10 {
            DataOpcode::Compare
        } else if bits == 11 {
            DataOpcode::CompareNegated
        } else if bits == 12 {
            DataOpcode::Or
        } else if bits == 13 {
            DataOpcode::Move
        } else if bits == 14 {
            DataOpcode::BitClear
        } else {
            DataOpcode::MoveNot
        }
    }

    /// The operation's three-letter mnemonic.
    pub fn to_mnemonic(self) -> (r: &'static str)
        ensures
            r@ == self.spec_mnemonic(),
    {
        match self {
            DataOpcode::And => "and",
            DataOpcode::ExclusiveOr => "eor",
            DataOpcode::Subtract => "sub",
            DataOpcode::ReverseSubtract => "rsb",
            DataOpcode::Add => "add",
            DataOpcode::AddWithCarry => "adc",
            DataOpcode::SubtractWithCarry => "sbc",
            DataOpcode::ReverseSubtractWithCarry => "rsc",
            DataOpcode::Test => "tst",
            DataOpcode::TestEquivalence => "teq",
            DataOpcode::Compare => "cmp",
            DataOpcode::CompareNegated => "cmn",
            DataOpcode::Or => "orr",
            DataOpcode::Move => "mov",
            DataOpcode::BitClear => "bic",
            DataOpcode::MoveNot => "mvn",
        }
    }
}

/// A decoded data-processing instruction: one ALU operation over a register
/// and a shifter operand, with a destination register and the
/// condition-code-update flag.
#[derive(Copy, Clone, PartialEq, Eq, Structural, Debug)]
pub struct DataInstruction {
    pub operand1: Register,
    pub operand2: ShifterOperand,
    pub destination: Register,
    pub opcode: DataOpcode,
    pub set_condition_codes: bool,
}

impl DataInstruction {
    /// The decoding of a full 32-bit data-processing word. Bit 25 selects
    /// which of the two shifter-operand readings applies to the low 16 bits;
    /// only the register-shift reading can fail.
    pub open spec fn spec_from_bits(w: u32) -> Result<DataInstruction, DecodeError> {
        let operand2 = if bit_set(w as nat, 25) {
            Ok(ShifterOperand::spec_from_immediate(w as u16))
        } else {
            ShifterOperand::spec_from_register_operand(w as u16)
        };
        match operand2 {
            Ok(operand2) => Ok(
                DataInstruction {
                    operand1: Register::spec_from_index(bit_field(w as nat, 16, 4)),
                    operand2,
                    destination: Register::spec_from_index(bit_field(w as nat, 12, 4)),
                    opcode: DataOpcode::spec_from_bits(bit_field(w as nat, 21, 4)),
                    set_condition_codes: bit_set(w as nat, 20),
                },
            ),
            Err(e) => Err(e),
        }
    }

    /// Decodes a 32-bit data-processing word.
    ///
    /// Fails exactly when the word selects the register-shift operand (bit 25
    /// clear) and that operand's field is the reserved encoding; the shifter
    /// operand's error is propagated verbatim.
    pub fn from_bits(bits: u32) -> (r: Result<DataInstruction, DecodeError>)
        ensures
            r == DataInstruction::spec_from_bits(bits),
            r is Err <==> (!bit_set(bits as nat, 25) && bit_set((bits as u16) as nat, 4)
                && bit_set((bits as u16) as nat, 7)),
            r is Err ==> r == Err::<DataInstruction, DecodeError>(
                DecodeError::InvalidShifterOperand(bits as u16),
            ),
            r is Ok ==> ((r->Ok_0.operand2 is Immediate) <==> bit_set(bits as nat, 25)),
    {
        let is_immediate = is_flag_set_u32(bits, 25);
        let set_condition_codes = is_flag_set_u32(bits, 20);
        let destination = get_register_u32(bits, 12);
        let operand1 = get_register_u32(bits, 16);
        proof {
            lemma_bit_field_bound(bits as nat, 21, 4);
            lemma2_to64();
        }
        let opcode = DataOpcode::from_bits(get_bits_u32(bits, 21, 4) as u8);
        let operand2 = if is_immediate {
            ShifterOperand::from_immediate(bits as u16)
        } else {
            match ShifterOperand::from_register_operand(bits as u16) {
                Ok(operand2) => operand2,
                Err(e) => {
                    return Err(e);
                },
            }
        };

        Ok(DataInstruction { operand1, operand2, destination, opcode, set_condition_codes })
    }
}

} // verus!
