use vstd::prelude::*;

verus! {

/// The 16 execution conditions of the instruction set, in the order of their
/// 4-bit encoding 0b0000 to 0b1111. Each carries a fixed two-letter mnemonic
/// suffix.
#[derive(Copy, Clone, PartialEq, Eq, Structural, Debug)]
pub enum ConditionCode {
    Equal,
    NotEqual,
    CarrySet,
    CarryClear,
    Minus,
    Plus,
    OverflowSet,
    OverflowClear,
    UnsignedHigher,
    UnsignedLowerOrSame,
    SignedGreaterThanOrEqual,
    SignedLessThan,
    SignedGreaterThan,
    SignedLessThanOrEqual,
    Always,
    Never,
}

impl ConditionCode {
    /// The condition selected by a 4-bit encoding.
    pub open spec fn spec_from_bits(b: nat) -> ConditionCode {
        if b == 0 {
            ConditionCode::Equal
        } else if b == 1 {
            ConditionCode::NotEqual
        } else if b == 2 {
            ConditionCode::CarrySet
        } else if b == 3 {
            ConditionCode::CarryClear
        } else if b == 4 {
            ConditionCode::Minus
        } else if b == 5 {
            ConditionCode::Plus
        } else if b == 6 {
            ConditionCode::OverflowSet
        } else if b == 7 {
            ConditionCode::OverflowClear
        } else if b == 8 {
            ConditionCode::UnsignedHigher
        } else if b == 9 {
            ConditionCode::UnsignedLowerOrSame
        } else if b == 10 {
            ConditionCode::SignedGreaterThanOrEqual
        } else if b == 11 {
            ConditionCode::SignedLessThan
        } else if b == 12 {
            ConditionCode::SignedGreaterThan
        } else if b == 13 {
            ConditionCode::SignedLessThanOrEqual
        } else if b == 14 {
            ConditionCode::Always
        } else {
            ConditionCode::Never
        }
    }

    /// The 4-bit encoding of a condition: the inverse of `spec_from_bits`.
    pub open spec fn spec_to_bits(self) -> nat {
        match self {
            ConditionCode::Equal => 0,
            ConditionCode::NotEqual => 1,
            ConditionCode::CarrySet => 2,
            ConditionCode::CarryClear => 3,
            ConditionCode::Minus => 4,
            ConditionCode::Plus => 5,
            ConditionCode::OverflowSet => 6,
            ConditionCode::OverflowClear => 7,
            ConditionCode::UnsignedHigher => 8,
            ConditionCode::UnsignedLowerOrSame => 9,
            ConditionCode::SignedGreaterThanOrEqual => 10,
            ConditionCode::SignedLessThan => 11,
            ConditionCode::SignedGreaterThan => 12,
            ConditionCode::SignedLessThanOrEqual => 13,
            ConditionCode::Always => 14,
            ConditionCode::Never => 15,
        }
    }

    /// The fixed two-letter mnemonic suffix of a condition.
    pub open spec fn spec_mnemonic(self) -> Seq<char> {
        match self {
            ConditionCode::Equal => "eq"@,
            ConditionCode::NotEqual => "ne"@,
            ConditionCode::CarrySet => "cs"@,
            ConditionCode::CarryClear => "cc"@,
            ConditionCode::Minus => "mi"@,
            ConditionCode::Plus => "pl"@,
            ConditionCode::OverflowSet => "vs"@,
            ConditionCode::OverflowClear => "vc"@,
            ConditionCode::UnsignedHigher => "hi"@,
            ConditionCode::UnsignedLowerOrSame => "ls"@,
            ConditionCode::SignedGreaterThanOrEqual => "ge"@,
            ConditionCode::SignedLessThan => "lt"@,
            ConditionCode::SignedGreaterThan => "gt"@,
            ConditionCode::SignedLessThanOrEqual => "le"@,
            ConditionCode::Always => "al"@,
            ConditionCode::Never => "nv"@,
        }
    }

    /// Decoding a 4-bit value and encoding the result returns the value:
    /// together with `lemma_to_bits_from_bits` this makes `spec_from_bits` a
    /// bijection between the 4-bit domain and the 16 conditions.
    pub proof fn lemma_from_bits_to_bits(b: nat)
        requires
            b < 16,
        ensures
            ConditionCode::spec_from_bits(b).spec_to_bits() == b,
    {
    }

    /// Encoding a condition and decoding the result returns the condition,
    /// and every encoding is a 4-bit value.
    pub proof fn lemma_to_bits_from_bits(c: ConditionCode)
        ensures
            c.spec_to_bits() < 16,
            ConditionCode::spec_from_bits(c.spec_to_bits()) == c,
    {
    }

    /// The condition selected by the 4-bit value `bits`. All 16 codes are
    /// valid; a wider value is a caller contract violation.
    pub fn from_bits(bits: u8) -> (r: ConditionCode)
        requires
            bits < 16,
        ensures
            r == ConditionCode::spec_from_bits(bits as nat),
    {
        if bits == 0 {
            ConditionCode::Equal
        } else if bits == 1 {
            ConditionCode::NotEqual
        } else if bits == 2 {
            ConditionCode::CarrySet
        } else if bits == 3 {
            ConditionCode::CarryClear
        } else if bits == 4 {
            ConditionCode::Minus
        } else if bits == 5 {
            ConditionCode::Plus
        } else if bits == 6 {
            ConditionCode::OverflowSet
        } else if bits == 7 {
            ConditionCode::OverflowClear
        } else if bits == 8 {
            ConditionCode::UnsignedHigher
        } else if bits == 9 {
            ConditionCode::UnsignedLowerOrSame
        } else if bits == 10 {
            ConditionCode::SignedGreaterThanOrEqual
        } else if bits == 11 {
            ConditionCode::SignedLessThan
        } else if bits == 12 {
            ConditionCode::SignedGreaterThan
        } else if bits == 13 {
            ConditionCode::SignedLessThanOrEqual
        } else if bits == 14 {
            ConditionCode::Always
        } else {
            ConditionCode::Never
        }
    }

    /// The condition's two-letter mnemonic suffix.
    pub fn to_mnemonic(self) -> (r: &'static str)
        ensures
            r@ == self.spec_mnemonic(),
    {
        match self {
            ConditionCode::Equal => "eq",
            ConditionCode::NotEqual => "ne",
            ConditionCode::CarrySet => "cs",
            ConditionCode::CarryClear => "cc",
            ConditionCode::Minus => "mi",
            ConditionCode::Plus => "pl",
            ConditionCode::OverflowSet => "vs",
            ConditionCode::OverflowClear => "vc",
            ConditionCode::UnsignedHigher => "hi",
            ConditionCode::UnsignedLowerOrSame => "ls",
            ConditionCode::SignedGreaterThanOrEqual => "ge",
            ConditionCode::SignedLessThan => "lt",
            ConditionCode::SignedGreaterThan => "gt",
            ConditionCode::SignedLessThanOrEqual => "le",
            ConditionCode::Always => "al",
            ConditionCode::Never => "nv",
        }
    }
}

} // verus!
