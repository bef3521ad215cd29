use vstd::prelude::*;
use crate::address::Address;

verus! {

/// The seeds with which this program signs for one of its accounts: a fixed
/// prefix, a key, and the bump seed.
#[derive(Debug)]
pub struct PdaSeeds {
    pub prefix: [u8; 5],
    pub key: Vec<u8>,
    pub bump: u8,
}

/// How an invoked instruction names one of the instruction's accounts: by its
/// position among them, writable or not, signer or not.
#[derive(Clone, Copy, Debug, PartialEq, Eq, Structural)]
pub struct AccountMeta {
    pub index: usize,
    pub is_writable: bool,
    pub is_signer: bool,
}

/// A call into another program that an instruction makes. Accounts are named by
/// their position among the instruction's accounts.
#[derive(Debug)]
pub enum Action {
    /// The System program's `CreateAccount`.
    CreateAccount {
        from: usize,
        to: usize,
        lamports: u64,
        space: u64,
        owner: Address,
        signer: PdaSeeds,
    },
    /// The SPL Token program's `TransferChecked`.
    TransferChecked {
        from: usize,
        mint: usize,
        to: usize,
        authority: usize,
        amount: u64,
        decimals: u8,
        signer: Option<PdaSeeds>,
    },
    /// The Associated Token Account program's `Create`.
    CreateAta {
        funding_account: usize,
        account: usize,
        wallet: usize,
        mint: usize,
        system_program: usize,
        token_program: usize,
    },
    /// An instruction of the program at `program`, with the given accounts and
    /// data; `views` are the accounts handed to the call.
    Invoke {
        program: usize,
        accounts: Vec<AccountMeta>,
        views: Vec<usize>,
        data: Vec<u8>,
    },
}

} // verus!
