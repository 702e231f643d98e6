use vstd::prelude::*;

verus! {

/// One of the 16 general-purpose registers, r0 to r15.
///
/// The index is kept private so that a register can only be built through
/// [`Register::from_index`], which demands an index below 16: a decoded
/// instruction therefore never carries an out-of-range register.
#[derive(Copy, Clone, PartialEq, Eq, Structural, Debug)]
pub struct Register(u8);

impl Register {
    /// The register's index, as a mathematical integer.
    pub closed spec fn spec_index(self) -> nat {
        self.0 as nat
    }

    /// The register with index `i`, as a specification-level value.
    pub closed spec fn spec_from_index(i: nat) -> Register {
        Register(i as u8)
    }

    /// Building a register from an in-range index and reading the index back
    /// returns the same index.
    pub proof fn lemma_spec_from_index(i: nat)
        requires
            i < 16,
        ensures
            Register::spec_from_index(i).spec_index() == i,
    {
    }

    /// The register with the given index. An index of 16 or more is a caller
    /// contract violation, ruled out here rather than reported as an error.
    pub fn from_index(index: usize) -> (r: Register)
        requires
            index < 16,
        ensures
            r.spec_index() == index,
            r == Register::spec_from_index(index as nat),
    {
        Register(index as u8)
    }

    /// The register's index, between 0 and 15.
    pub fn index(self) -> (r: usize)
        ensures
            r == self.spec_index(),
    {
        self.0 as usize
    }
}

} // verus!
