use arm_decode::{Branch, Register};

#[test]
fn branch_and_exchange() {
    let decoded = Branch::from_bits_bx(0b1101);
    assert_eq!(
        decoded,
        Branch::BranchAndExchange(Register::from_index(0b1101))
    )
}

#[test]
fn branch() {
    let decoded = Branch::from_bits_branch(0b1_010100100010110101010010);
    assert_eq!(
        decoded,
        Branch::Branch {
            offset: 0b010100100010110101010010,
            link: true,
        }
    );

    let decoded = Branch::from_bits_branch(0b0_111111111111111111111111);
    assert_eq!(
        decoded,
        Branch::Branch {
            offset: -1,
            link: false,
        }
    )
}

#[test]
fn branch_sign_extension_boundary() {
    // The smallest negative field, 0x800000, widens to -2^23.
    let decoded = Branch::from_bits_branch(0b0_100000000000000000000000);
    assert_eq!(
        decoded,
        Branch::Branch {
            offset: -0x800000,
            link: false,
        }
    );

    // The largest positive field stays positive.
    let decoded = Branch::from_bits_branch(0b1_011111111111111111111111);
    assert_eq!(
        decoded,
        Branch::Branch {
            offset: 0x7FFFFF,
            link: true,
        }
    );

    assert_eq!(
        Branch::from_bits_branch(0),
        Branch::Branch {
            offset: 0,
            link: false,
        }
    );
}
