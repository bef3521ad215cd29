use vstd::prelude::*;

verus! {

/// The program's instructions with the arguments each takes, in discriminator
/// order; this describes the program's interface.
#[derive(Clone, Copy, Debug)]
pub enum ProgramIx {
    /// 0 Vault PDA Init
    VaultInit { vault_bump: u8, fee: u16 },
    /// 1 Vault Ata Init
    VaultTokAcctInit { decimal: u8 },
    /// 2 Token Legacy Deposit to Vault
    TokLgcDeposit { decimal: u8, amount: u64 },
    /// 3 FlashloanBorrow
    FlashloanBorrow { decimals: u8, loans_bump: u8, vault_bumps: [u8; 8], fees: [u16; 8] },
    /// 4 FlashloanRepay
    FlashloanRepay {},
    /// 5 FuncCaller
    FuncCaller { vault_bump: u8, fee: u16 },
}

} // verus!
