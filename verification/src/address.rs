use vstd::prelude::*;

verus! {

/// A 32-byte account address.
pub type Address = [u8; 32];

/// The address of this program (`FcLwqf7L3VyxWuMKKzLA7vJqBo8bj9i3zHkxLe65Z1Ad`).
pub const ID: Address = [
    217, 17, 127, 107, 120, 225, 143, 8, 10, 28, 210, 37, 120, 119, 227, 199,
    240, 188, 217, 98, 222, 225, 223, 105, 217, 183, 119, 28, 168, 73, 51, 78,
];

/// This program's address.
pub const PROG_ADDR: Address = ID;

/// The legacy SPL Token program (`TokenkegQfeZyiNwAJbNbGKPFXCWuBvf9Ss623VQ5DA`).
pub const TOKEN_LGC_ADDR: Address = [
    6, 221, 246, 225, 215, 101, 161, 147, 217, 203, 225, 70, 206, 235, 121, 172,
    28, 180, 133, 237, 95, 91, 55, 145, 58, 140, 245, 133, 126, 255, 0, 169,
];

/// The SPL Token-2022 program (`TokenzQdBNbLqP5VEhdkAS6EPFLC1PHnBqCXEpPxuEb`).
pub const TOKEN_2022_ADDR: Address = [
    6, 221, 246, 225, 238, 117, 143, 222, 24, 66, 93, 188, 228, 108, 205, 218,
    182, 26, 252, 77, 131, 185, 13, 39, 254, 189, 249, 40, 216, 161, 139, 252,
];

/// The Associated Token Account program (`ATokenGPvbdGVxr1b2hvZbsiqW5xWH25efTNsLJA8knL`).
pub const ATOKENGPVBD: Address = [
    140, 151, 37, 143, 78, 36, 137, 241, 187, 61, 16, 41, 20, 142, 13, 131,
    11, 90, 19, 153, 218, 255, 16, 132, 4, 142, 123, 216, 219, 233, 248, 89,
];

/// The System program (`11111111111111111111111111111111`).
pub const SYSTEM_PROGRAM_ID: Address = [
    0, 0, 0, 0, 0, 0, 0, 0, 0, 0, 0, 0, 0, 0, 0, 0,
    0, 0, 0, 0, 0, 0, 0, 0, 0, 0, 0, 0, 0, 0, 0, 0,
];

/// The rent sysvar (`SysvarRent111111111111111111111111111111111`).
pub const RENT_ID: Address = [
    6, 167, 213, 23, 25, 44, 92, 81, 33, 140, 201, 76, 61, 74, 241, 127,
    88, 218, 238, 8, 155, 161, 253, 68, 227, 219, 217, 138, 0, 0, 0, 0,
];

/// The instructions sysvar (`Sysvar1nstructions1111111111111111111111111`).
pub const INSTRUCTIONS_ID: Address = [
    6, 167, 213, 23, 24, 123, 209, 102, 53, 218, 212, 4, 85, 253, 194, 192,
    193, 36, 198, 143, 33, 86, 117, 165, 219, 186, 203, 95, 8, 0, 0, 0,
];

/// The SPL Token program that token accounts and mints must belong to.
pub const TOKEN_PROGRAM_ID: Address = TOKEN_LGC_ADDR;

/// `pinocchio::address::address_eq`: compares two addresses. It reads both as
/// four 8-byte words and compares them word by word, so it is true exactly
/// when the 32 bytes agree.
#[verifier::external_body]
pub(crate) fn address_eq(a1: &Address, a2: &Address) -> (r: bool)
    ensures
        r == (a1@ == a2@),
{
    pinocchio::address::address_eq(
        &pinocchio::Address::new_from_array(*a1),
        &pinocchio::Address::new_from_array(*a2),
    )
}

} // verus!
