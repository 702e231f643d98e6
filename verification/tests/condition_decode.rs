use arm_decode::ConditionCode;

#[test]
fn condition_code_table() {
    let expected = [
        ConditionCode::Equal,
        ConditionCode::NotEqual,
        ConditionCode::CarrySet,
        ConditionCode::CarryClear,
        ConditionCode::Minus,
        ConditionCode::Plus,
        ConditionCode::OverflowSet,
        ConditionCode::OverflowClear,
        ConditionCode::UnsignedHigher,
        ConditionCode::UnsignedLowerOrSame,
        ConditionCode::SignedGreaterThanOrEqual,
        ConditionCode::SignedLessThan,
        ConditionCode::SignedGreaterThan,
        ConditionCode::SignedLessThanOrEqual,
        ConditionCode::Always,
        ConditionCode::Never,
    ];

    let decoded: Vec<_> = (0..16).map(ConditionCode::from_bits).collect();
    for (e, d) in expected.iter().zip(decoded.iter()) {
        assert_eq!(e, d);
    }

    // A bijection: the 16 decoded values are pairwise distinct.
    for i in 0..16usize {
        for j in 0..i {
            assert_ne!(decoded[i], decoded[j]);
        }
    }

    let mnemonics: Vec<_> = decoded.iter().map(|c| c.to_mnemonic()).collect();
    assert_eq!(
        mnemonics.as_slice(),
        &[
            "eq", "ne", "cs", "cc", "mi", "pl", "vs", "vc", "hi", "ls", "ge", "lt", "gt", "le",
            "al", "nv"
        ]
    );
}
