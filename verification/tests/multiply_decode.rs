use arm_decode::{Multiply, Register};

#[test]
fn test_decode_short() {
    let decoded = Multiply::from_bits(0b0_0_1_1_0011_1010_1001_1001_1100);
    assert_eq!(
        decoded,
        Multiply {
            long: false,
            signed: false,
            accumulate: true,
            set_condition_codes: true,

            operand1: Register::from_index(0b1010),
            operand2: Register::from_index(0b1001),
            operand3: Register::from_index(0b1100),
            destination: Register::from_index(0b0011),
        }
    );
}

#[test]
fn test_decode_long() {
    let decoded = Multiply::from_bits(0b1_1_1_1_0011_1010_1001_1001_1100);
    assert_eq!(
        decoded,
        Multiply {
            long: true,
            signed: true,
            accumulate: true,
            set_condition_codes: true,

            operand1: Register::from_index(0b1010),
            operand2: Register::from_index(0b1001),
            operand3: Register::from_index(0b1100),
            destination: Register::from_index(0b0011),
        }
    );
}

#[test]
fn multiply_flags_independent_of_registers() {
    // Toggling one of bits 20 to 23 changes only the corresponding flag;
    // every register field keeps its value.
    let base: u32 = 0b0_0_0_0_0011_1010_1001_1001_1100;
    let before = Multiply::from_bits(base);
    for bit in 20..24u32 {
        let after = Multiply::from_bits(base ^ (1u32 << bit));
        assert_eq!(after.destination, before.destination);
        assert_eq!(after.operand1, before.operand1);
        assert_eq!(after.operand2, before.operand2);
        assert_eq!(after.operand3, before.operand3);
        assert_eq!(after.long, (bit == 23) != before.long);
        assert_eq!(after.signed, (bit == 22) != before.signed);
        assert_eq!(after.accumulate, (bit == 21) != before.accumulate);
        assert_eq!(
            after.set_condition_codes,
            (bit == 20) != before.set_condition_codes
        );
    }
}
