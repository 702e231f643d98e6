use arm_decode::{Register, Swap, SwapSize};

#[test]
fn decode() {
    let decoded = Swap::from_bits(0b1_00_1001_1100_00001001_1011);

    assert_eq!(
        decoded,
        Swap {
            source: Register::from_index(0b1011),
            destination: Register::from_index(0b1100),
            base: Register::from_index(0b1001),
            size: SwapSize::Byte,
        }
    );
}

#[test]
fn swap_size_follows_bit_22() {
    // Bit 22 set reads as a byte swap, cleared as a word swap; the register
    // fields are read at the same places either way.
    let byte_word: u32 = 0b1_00_1001_1100_00001001_1011;
    let word_word: u32 = byte_word & !(1 << 22);

    let byte = Swap::from_bits(byte_word);
    let word = Swap::from_bits(word_word);
    assert_eq!(byte.size, SwapSize::Byte);
    assert_eq!(word.size, SwapSize::Word);
    assert_eq!(byte.source, word.source);
    assert_eq!(byte.destination, word.destination);
    assert_eq!(byte.base, word.base);
    assert_eq!(word.source, Register::from_index(0b1011));
    assert_eq!(word.destination, Register::from_index(0b1100));
    assert_eq!(word.base, Register::from_index(0b1001));
}
