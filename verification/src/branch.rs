use vstd::prelude::*;
use vstd::arithmetic::power2::lemma2_to64;
use crate::bits::{bit_field, bit_set, get_bits_u32, get_register_u32, is_flag_set_u32,
    lemma_bit_field_bound};
use crate::register::Register;

verus! {

/// A decoded branch: either the register-indirect branch-and-exchange form,
/// or the PC-relative form whose 24-bit two's-complement offset is widened to
/// a signed word, with an optional link flag.
#[derive(Copy, Clone, PartialEq, Eq, Structural, Debug)]
pub enum Branch {
    BranchAndExchange(Register),
    Branch { offset: i32, link: bool },
}

impl Branch {
    /// The decoding of a branch-and-exchange word: the target register sits
    /// in the low 4 bits.
    pub open spec fn spec_from_bits_bx(w: u32) -> Branch {
        Branch::BranchAndExchange(Register::spec_from_index(bit_field(w as nat, 0, 4)))
    }

    /// The 24-bit offset field of a branch word read as a two's-complement
    /// number: fields of 0x800000 and above stand for negative values.
    pub open spec fn spec_branch_offset(w: u32) -> int {
        let raw = bit_field(w as nat, 0, 24);
        if raw >= 0x800000 {
            raw - 0x1000000
        } else {
            raw as int
        }
    }

    /// The decoding of a branch word: the sign-extended 24-bit offset, and
    /// the link flag at bit 24.
    pub open spec fn spec_from_bits_branch(w: u32) -> Branch {
        Branch::Branch {
            offset: Branch::spec_branch_offset(w) as i32,
            link: bit_set(w as nat, 24),
        }
    }

    /// Decodes a branch-and-exchange word. Infallible.
    pub fn from_bits_bx(bits: u32) -> (r: Branch)
        ensures
            r == Branch::spec_from_bits_bx(bits),
    {
        Branch::BranchAndExchange(get_register_u32(bits, 0))
    }

    /// Decodes a branch word, sign-extending the 24-bit offset field to a
    /// signed 32-bit value. Infallible.
    pub fn from_bits_branch(bits: u32) -> (r: Branch)
        ensures
            r == Branch::spec_from_bits_branch(bits),
    {
        let raw = get_bits_u32(bits, 0, 24);
        proof {
            lemma_bit_field_bound(bits as nat, 0, 24);
            lemma2_to64();
        }
        let offset: i32 = if raw >= 0x800000 {
            (raw as i32) - 0x1000000
        } else {
            raw as i32
        };

        Branch::Branch { offset, link: is_flag_set_u32(bits, 24) }
    }
}

} // verus!
