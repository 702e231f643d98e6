use vstd::prelude::*;
use vstd::arithmetic::power2::lemma2_to64;
use crate::bits::{bit_field, bit_set, get_bits_u16, get_register_u16, is_flag_set_u16,
    lemma_bit_field_bound};
use crate::error::DecodeError;
use crate::register::Register;

verus! {

/// The ALU's second operand: either an 8-bit immediate together with a 4-bit
/// rotation, or a register shifted by a literal or register-held amount.
#[derive(Copy, Clone, PartialEq, Eq, Structural, Debug)]
pub enum ShifterOperand {
    Immediate { value: u8, rotate: u8 },
    Shift { operation: ShiftOperation, source: Register, operand: ShiftOperand },
}

/// The four shift operations of the shifter-operand encoding, in the order of
/// their 2-bit encoding 0b00 to 0b11.
#[derive(Copy, Clone, PartialEq, Eq, Structural, Debug)]
pub enum ShiftOperation {
    LogicalLeft,
    LogicalRight,
    ArithmeticRight,
    RotateRight,
}

/// Where the shift amount comes from: a register's low byte at run time, or a
/// literal magnitude fixed by the encoding.
#[derive(Copy, Clone, PartialEq, Eq, Structural, Debug)]
pub enum ShiftOperand {
    Register(Register),
    Value(u8),
}

impl ShifterOperand {
    /// The immediate form of a 16-bit shifter-operand field: the low 8 bits
    /// are the value, bits 8 to 11 the rotation.
    pub open spec fn spec_from_immediate(bits: u16) -> ShifterOperand {
        ShifterOperand::Immediate {
            value: bit_field(bits as nat, 0, 8) as u8,
            rotate: bit_field(bits as nat, 8, 4) as u8,
        }
    }

    /// The shift operation selected by bits 5 and 6 of the field.
    pub open spec fn spec_shift_operation(bits: u16) -> ShiftOperation {
        let op = bit_field(bits as nat, 5, 2);
        if op == 0 {
            ShiftOperation::LogicalLeft
        } else if op == 1 {
            ShiftOperation::LogicalRight
        } else if op == 2 {
            ShiftOperation::ArithmeticRight
        } else {
            ShiftOperation::RotateRight
        }
    }

    /// A register-operand field is well formed unless it asks for a
    /// register-specified shift amount (bit 4) with the reserved bit 7 also
    /// set.
    pub open spec fn spec_register_operand_valid(bits: u16) -> bool {
        !(bit_set(bits as nat, 4) && bit_set(bits as nat, 7))
    }

    /// The register-shift form of a 16-bit shifter-operand field, or the one
    /// decode error on the reserved encoding.
    pub open spec fn spec_from_register_operand(bits: u16) -> Result<
        ShifterOperand,
        DecodeError,
    > {
        if !ShifterOperand::spec_register_operand_valid(bits) {
            Err(DecodeError::InvalidShifterOperand(bits))
        } else {
            Ok(
                ShifterOperand::Shift {
                    operation: ShifterOperand::spec_shift_operation(bits),
                    source: Register::spec_from_index(bit_field(bits as nat, 0, 4)),
                    operand: if bit_set(bits as nat, 4) {
                        ShiftOperand::Register(
                            Register::spec_from_index(bit_field(bits as nat, 8, 4)),
                        )
                    } else {
                        ShiftOperand::Value(bit_field(bits as nat, 7, 4) as u8)
                    },
                },
            )
        }
    }

    /// Decodes the immediate form of the shifter operand. Infallible: every
    /// 16-bit field has an immediate reading.
    pub fn from_immediate(bits: u16) -> (r: ShifterOperand)
        ensures
            r == ShifterOperand::spec_from_immediate(bits),
    {
        proof {
            lemma_bit_field_bound(bits as nat, 0, 8);
            lemma_bit_field_bound(bits as nat, 8, 4);
            lemma2_to64();
        }
        ShifterOperand::Immediate {
            value: get_bits_u16(bits, 0, 8) as u8,
            rotate: get_bits_u16(bits, 8, 4) as u8,
        }
    }

    /// Decodes the register-shift form of the shifter operand.
    ///
    /// This is the one fallible decode path: it fails, with
    /// `DecodeError::InvalidShifterOperand` carrying the raw field, exactly
    /// when bit 4 (register-specified shift amount) and the reserved bit 7
    /// are both set.
    pub fn from_register_operand(bits: u16) -> (r: Result<ShifterOperand, DecodeError>)
        ensures
            r == ShifterOperand::spec_from_register_operand(bits),
            r is Err <==> (bit_set(bits as nat, 4) && bit_set(bits as nat, 7)),
            r is Err ==> r == Err::<ShifterOperand, DecodeError>(
                DecodeError::InvalidShifterOperand(bits),
            ),
    {
        let operand = if is_flag_set_u16(bits, 4) {
            if is_flag_set_u16(bits, 7) {
                return Err(DecodeError::InvalidShifterOperand(bits));
            }
            ShiftOperand::Register(get_register_u16(bits, 8))
        } else {
            proof {
                lemma_bit_field_bound(bits as nat, 7, 4);
                lemma2_to64();
            }
            ShiftOperand::Value(get_bits_u16(bits, 7, 4) as u8)
        };

        let op = get_bits_u16(bits, 5, 2);
        let operation = if op == 0 {
            ShiftOperation::LogicalLeft
        } else if op == 1 {
            ShiftOperation::LogicalRight
        } else if op == 2 {
            ShiftOperation::ArithmeticRight
        } else {
            ShiftOperation::RotateRight
        };

        let source = get_register_u16(bits, 0);

        Ok(ShifterOperand::Shift { operation, operand, source })
    }
}

} // verus!
