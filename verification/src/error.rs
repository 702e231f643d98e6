use vstd::prelude::*;

verus! {

/// The one recoverable decode failure: a register-specified shift amount
/// encoded together with the reserved high bit set. The payload is the raw
/// 16-bit shifter-operand field that was rejected.
#[derive(Copy, Clone, PartialEq, Eq, Structural, Debug)]
pub enum DecodeError {
    InvalidShifterOperand(u16),
}

} // verus!
