pub mod flashloan_borrow;
pub mod flashloan_repay;
pub mod func_caller;
pub mod func_caller_anchor;
pub mod program_ix;
pub mod tok_lgc_deposit;
pub mod vault_ata_init;
pub mod vault_init;
