use arm_decode::{DecodeError, Register, ShiftOperand, ShiftOperation, ShifterOperand};

#[test]
fn shifter_operand() {
    let result = ShifterOperand::from_immediate(0b11111010_11001100);
    assert_eq!(
        result,
        ShifterOperand::Immediate {
            value: 0b11001100,
            rotate: 0b1010
        }
    );

    let raw_shifters: [u16; 9] = [
        0b11001_000_0101,
        0b10110_001_0101,
        0b11001_010_0101,
        0b10110_011_0101,
        0b11001_100_0101,
        0b10110_101_0101,
        0b11001_110_0101,
        0b10110_111_0101,
        0b10111_001_0101,
    ];
    let decoded_shifters: Vec<_> = raw_shifters
        .iter()
        .map(|x| ShifterOperand::from_register_operand(*x))
        .collect();
    assert_eq!(
        decoded_shifters.as_slice(),
        [
            Ok(ShifterOperand::Shift {
                source: Register::from_index(5),
                operation: ShiftOperation::LogicalLeft,
                operand: ShiftOperand::Value(9)
            }),
            Ok(ShifterOperand::Shift {
                source: Register::from_index(5),
                operation: ShiftOperation::LogicalLeft,
                operand: ShiftOperand::Register(Register::from_index(11))
            }),
            Ok(ShifterOperand::Shift {
                source: Register::from_index(5),
                operation: ShiftOperation::LogicalRight,
                operand: ShiftOperand::Value(9)
            }),
            Ok(ShifterOperand::Shift {
                source: Register::from_index(5),
                operation: ShiftOperation::LogicalRight,
                operand: ShiftOperand::Register(Register::from_index(11))
            }),
            Ok(ShifterOperand::Shift {
                source: Register::from_index(5),
                operation: ShiftOperation::ArithmeticRight,
                operand: ShiftOperand::Value(9)
            }),
            Ok(ShifterOperand::Shift {
                source: Register::from_index(5),
                operation: ShiftOperation::ArithmeticRight,
                operand: ShiftOperand::Register(Register::from_index(11))
            }),
            Ok(ShifterOperand::Shift {
                source: Register::from_index(5),
                operation: ShiftOperation::RotateRight,
                operand: ShiftOperand::Value(9)
            }),
            Ok(ShifterOperand::Shift {
                source: Register::from_index(5),
                operation: ShiftOperation::RotateRight,
                operand: ShiftOperand::Register(Register::from_index(11))
            }),
            Err(DecodeError::InvalidShifterOperand(0b10111_001_0101)),
        ]
    );
}
