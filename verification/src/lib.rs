pub mod account;
pub mod address;
pub mod cpi;
pub mod error;
pub mod instructions;
pub mod parse;
pub mod processor;
pub mod rent;
pub mod state;
pub mod utils;

pub use crate::account::AccountView;
pub use crate::address::{Address, ATOKENGPVBD, ID, PROG_ADDR, TOKEN_2022_ADDR, TOKEN_LGC_ADDR};
pub use crate::error::{Ee, ProgramError, ProgramResult};
pub use crate::instructions::flashloan_borrow::{FlashloanBorrow, RepayIx};
pub use crate::instructions::flashloan_repay::FlashloanRepay;
pub use crate::instructions::func_caller::FuncCaller;
pub use crate::instructions::func_caller_anchor::InitAnchorPdaCaller;
pub use crate::instructions::program_ix::ProgramIx;
pub use crate::instructions::tok_lgc_deposit::TokLgcDeposit;
pub use crate::instructions::vault_ata_init::VaultAtaInit;
pub use crate::instructions::vault_init::VaultInit;
pub use crate::parse::{parse_u16, parse_u64};
pub use crate::state::{Loan, Loans, Vault};
