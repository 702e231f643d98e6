use arm_decode::{Branch, ConditionCode, DataInstruction, DataOpcode, Multiply, Register, ShifterOperand, Swap};

#[test]
fn decoders_are_pure() {
    // Decoding the same word twice yields bit-for-bit identical results:
    // there is no hidden state.
    let words: [u32; 4] = [0, 0xFFFF_FFFF, 0b1_0101_1_1001_1101_101011101011, 0xDEAD_BEEF];
    for &w in words.iter() {
        assert_eq!(Branch::from_bits_bx(w), Branch::from_bits_bx(w));
        assert_eq!(Branch::from_bits_branch(w), Branch::from_bits_branch(w));
        assert_eq!(Multiply::from_bits(w), Multiply::from_bits(w));
        assert_eq!(Swap::from_bits(w), Swap::from_bits(w));
        assert_eq!(DataInstruction::from_bits(w), DataInstruction::from_bits(w));
        let field = w as u16;
        assert_eq!(
            ShifterOperand::from_immediate(field),
            ShifterOperand::from_immediate(field)
        );
        assert_eq!(
            ShifterOperand::from_register_operand(field),
            ShifterOperand::from_register_operand(field)
        );
    }
    for b in 0..16u8 {
        assert_eq!(ConditionCode::from_bits(b), ConditionCode::from_bits(b));
        assert_eq!(DataOpcode::from_bits(b), DataOpcode::from_bits(b));
    }
    for i in 0..16usize {
        assert_eq!(Register::from_index(i), Register::from_index(i));
        assert_eq!(Register::from_index(i).index(), i);
    }
}
