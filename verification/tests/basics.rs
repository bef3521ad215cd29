use flashloan::account::AccountView;
use flashloan::address::{INSTRUCTIONS_ID, RENT_ID, SYSTEM_PROGRAM_ID, TOKEN_PROGRAM_ID};
use flashloan::rent::{ACCOUNT_STORAGE_OVERHEAD, MAX_LAMPORTS_PER_BYTE};
use flashloan::utils::{
    amount_from_token_acct, ata_balc, check_ata, check_data_len, check_decimals,
    check_instruction_sysvar, check_mint0a, check_pda, check_rent_sysvar, check_signer,
    check_sysprog, close_pda, empty_data, executable, get_rent_exempt, initialized,
    minimum_balance, none_zero_u16, none_zero_u64, none_zero_u8, not_initialized,
    rent_exempt_mint, rent_exempt_tokacct, writable, MINT_LEN, TOKEN_ACCOUNT_LEN,
};
use flashloan::{parse_u16, parse_u64, Ee, ProgramError, ATOKENGPVBD, ID, PROG_ADDR, TOKEN_2022_ADDR, TOKEN_LGC_ADDR};

fn acct(address: [u8; 32], owner: [u8; 32], lamports: u64, data: Vec<u8>) -> AccountView {
    AccountView { address, owner, lamports, data, is_signer: false, is_writable: false, executable: false }
}

fn token_account(address: [u8; 32], mint: [u8; 32], owner: [u8; 32], amount: u64) -> AccountView {
    let mut data = vec![0u8; TOKEN_ACCOUNT_LEN];
    data[0..32].copy_from_slice(&mint);
    data[32..64].copy_from_slice(&owner);
    data[64..72].copy_from_slice(&amount.to_le_bytes());
    acct(address, TOKEN_PROGRAM_ID, 2_039_280, data)
}

fn mint_account(address: [u8; 32], decimals: u8) -> AccountView {
    let mut data = vec![0u8; MINT_LEN];
    data[44] = decimals;
    data[45] = 1;
    acct(address, TOKEN_PROGRAM_ID, 1_461_600, data)
}

fn rent_sysvar(rate: u64) -> AccountView {
    let mut data = rate.to_le_bytes().to_vec();
    data.extend_from_slice(&[0u8; 9]);
    acct(RENT_ID, SYSTEM_PROGRAM_ID, 1, data)
}

#[test]
fn addresses_match_the_outside_crates() {
    assert_eq!(TOKEN_LGC_ADDR, pinocchio_token::ID.to_bytes());
    assert_eq!(TOKEN_2022_ADDR, pinocchio::Address::from_str_const("TokenzQdBNbLqP5VEhdkAS6EPFLC1PHnBqCXEpPxuEb").to_bytes());
    assert_eq!(ATOKENGPVBD, pinocchio_associated_token_account::ID.to_bytes());
    assert_eq!(SYSTEM_PROGRAM_ID, pinocchio_system::ID.to_bytes());
    assert_eq!(RENT_ID, pinocchio::sysvars::rent::RENT_ID.to_bytes());
    assert_eq!(INSTRUCTIONS_ID, pinocchio::sysvars::instructions::INSTRUCTIONS_ID.to_bytes());
    assert_eq!(ID, pinocchio::Address::from_str_const("FcLwqf7L3VyxWuMKKzLA7vJqBo8bj9i3zHkxLe65Z1Ad").to_bytes());
    assert_eq!(PROG_ADDR, ID);
}

#[test]
fn layout_lengths_match_the_outside_crates() {
    assert_eq!(TOKEN_ACCOUNT_LEN, pinocchio_token::state::Account::LEN);
    assert_eq!(MINT_LEN, pinocchio_token::state::Mint::LEN);
    assert_eq!(ACCOUNT_STORAGE_OVERHEAD, pinocchio::sysvars::rent::ACCOUNT_STORAGE_OVERHEAD);
}

#[test]
fn parse_u64_reads_little_endian() {
    assert_eq!(parse_u64(&0x0102_0304_0506_0708u64.to_le_bytes()), Ok(0x0102_0304_0506_0708));
    assert_eq!(parse_u64(&[1, 0, 0, 0, 0, 0, 0, 0]), Ok(1));
    assert_eq!(parse_u64(&u64::MAX.to_le_bytes()), Ok(u64::MAX));
}

#[test]
fn parse_u64_refuses_other_lengths() {
    assert_eq!(parse_u64(&[1, 2, 3]), Err(ProgramError::Custom(Ee::ByteSizeForU64.code())));
    assert_eq!(parse_u64(&[0u8; 9]), Err(ProgramError::Custom(21)));
    assert_eq!(parse_u64(&[]), Err(ProgramError::Custom(21)));
}

#[test]
fn parse_u16_reads_little_endian() {
    assert_eq!(parse_u16(&[0x34, 0x12]), Ok(0x1234));
    assert_eq!(parse_u16(&[1]), Err(ProgramError::Custom(Ee::ByteSizeForU16.code())));
}

#[test]
fn simple_checks() {
    let mut a = acct([7; 32], PROG_ADDR, 0, vec![]);
    assert_eq!(check_signer(&a), Err(ProgramError::MissingRequiredSignature));
    assert_eq!(writable(&a), Ee::NotWritable.e());
    assert_eq!(executable(&a), Ee::NotExecutable.e());
    assert_eq!(initialized(&a), Err(ProgramError::UninitializedAccount));
    assert_eq!(not_initialized(&a), Ok(()));
    assert_eq!(empty_data(&a), Ok(()));
    a.is_signer = true;
    a.is_writable = true;
    a.executable = true;
    a.lamports = 5;
    a.data = vec![1];
    assert_eq!(check_signer(&a), Ok(()));
    assert_eq!(writable(&a), Ok(()));
    assert_eq!(executable(&a), Ok(()));
    assert_eq!(initialized(&a), Ok(()));
    assert_eq!(not_initialized(&a), Err(ProgramError::AccountAlreadyInitialized));
    assert_eq!(empty_data(&a), Ee::EmptyData.e());
    assert_eq!(check_data_len(&[1, 2], 2), Ok(()));
    assert_eq!(check_data_len(&[1, 2], 3), Ee::InputDataLen.e());
    assert_eq!(none_zero_u64(0), Ee::ZeroU64.e());
    assert_eq!(none_zero_u64(1), Ok(()));
    assert_eq!(none_zero_u8(0), Ee::ZeroU8.e());
    assert_eq!(none_zero_u16(0), Ee::ZeroU16.e());
    assert_eq!(none_zero_u16(9), Ok(()));
}

#[test]
fn address_checks() {
    let sys = acct(SYSTEM_PROGRAM_ID, [0; 32], 1, vec![]);
    let other = acct([9; 32], [0; 32], 1, vec![]);
    assert_eq!(check_sysprog(&sys), Ok(()));
    assert_eq!(check_sysprog(&other), Ee::SystemProgram.e());
    assert_eq!(check_rent_sysvar(&rent_sysvar(6960)), Ok(()));
    assert_eq!(check_rent_sysvar(&other), Ee::RentSysvar.e());
    let ix = acct(INSTRUCTIONS_ID, [0; 32], 1, vec![]);
    assert_eq!(check_instruction_sysvar(&ix), Ok(()));
    assert_eq!(check_instruction_sysvar(&sys), Ee::InstructionSysvar.e());
    assert_eq!(flashloan::utils::check_atoken_gpvbd(&acct(ATOKENGPVBD, [0; 32], 1, vec![])), Ok(()));
    assert_eq!(flashloan::utils::check_atoken_gpvbd(&other), Ee::AtokenGPvbd.e());
}

#[test]
fn pda_checks() {
    assert_eq!(check_pda(&acct([1; 32], PROG_ADDR, 0, vec![])), Ee::PdaNoLamport.e());
    assert_eq!(check_pda(&acct([1; 32], [2; 32], 10, vec![])), Ee::ForeignPDA.e());
    assert_eq!(check_pda(&acct([1; 32], PROG_ADDR, 10, vec![])), Ok(()));
}

#[test]
fn token_account_amount() {
    let ata = token_account([3; 32], [4; 32], [5; 32], 777);
    assert_eq!(amount_from_token_acct(&ata), Ok(777));
    let mut foreign = token_account([3; 32], [4; 32], [5; 32], 777);
    foreign.owner = [1; 32];
    assert_eq!(amount_from_token_acct(&foreign), Err(ProgramError::Custom(Ee::TokenAcctOwner.code())));
    let mut short = token_account([3; 32], [4; 32], [5; 32], 777);
    short.data.truncate(100);
    assert_eq!(amount_from_token_acct(&short), Err(ProgramError::Custom(Ee::TokenAcctDataLen.code())));
}

#[test]
fn ata_balance_check() {
    let ata = token_account([3; 32], [4; 32], [5; 32], 100);
    assert_eq!(ata_balc(&ata, 100), Ok(()));
    assert_eq!(ata_balc(&ata, 101), Err(ProgramError::InsufficientFunds));
    let mut foreign = token_account([3; 32], [4; 32], [5; 32], 100);
    foreign.owner = [1; 32];
    assert_eq!(ata_balc(&foreign, 1), Err(ProgramError::IncorrectProgramId));
    let mut short = token_account([3; 32], [4; 32], [5; 32], 100);
    short.data.pop();
    assert_eq!(ata_balc(&short, 1), Err(ProgramError::InvalidAccountData));
}

#[test]
fn ata_checks() {
    let owner = acct([5; 32], [0; 32], 1, vec![]);
    let mint = mint_account([4; 32], 6);
    let ata = token_account([3; 32], [4; 32], [5; 32], 1);
    assert_eq!(check_ata(&ata, &owner, &mint), Ok(()));
    let empty = acct([3; 32], TOKEN_PROGRAM_ID, 0, vec![]);
    assert_eq!(check_ata(&empty, &owner, &mint), Ee::AtaHasNoData.e());
    let mut short = token_account([3; 32], [4; 32], [5; 32], 1);
    short.data.pop();
    assert_eq!(check_ata(&short, &owner, &mint), Ee::AtaDataLen.e());
    let mut foreign = token_account([3; 32], [4; 32], [5; 32], 1);
    foreign.owner = [8; 32];
    assert_eq!(check_ata(&foreign, &owner, &mint), Err(ProgramError::IncorrectProgramId));
    let other_owner = token_account([3; 32], [4; 32], [6; 32], 1);
    assert_eq!(check_ata(&other_owner, &owner, &mint), Ee::AtaOrOwner.e());
    let other_mint = token_account([3; 32], [9; 32], [5; 32], 1);
    assert_eq!(check_ata(&other_mint, &owner, &mint), Ee::AtaOrMint.e());
}

#[test]
fn mint_checks() {
    let mint = mint_account([4; 32], 6);
    let token_prog = acct(TOKEN_PROGRAM_ID, [0; 32], 1, vec![]);
    assert_eq!(check_mint0a(&mint, &token_prog), Ok(()));
    let mut short = mint_account([4; 32], 6);
    short.data.pop();
    assert_eq!(check_mint0a(&short, &token_prog), Ee::MintDataLen.e());
    assert_eq!(check_mint0a(&mint, &acct([1; 32], [0; 32], 1, vec![])), Ee::TokenProgram.e());
    let mut foreign = mint_account([4; 32], 6);
    foreign.owner = [2; 32];
    assert_eq!(check_mint0a(&foreign, &token_prog), Ee::MintOrTokenProgram.e());
    assert_eq!(check_decimals(&mint, 6), Ok(()));
    assert_eq!(check_decimals(&mint, 9), Ee::DecimalsValue.e());
    assert_eq!(check_decimals(&foreign, 6), Err(ProgramError::IncorrectProgramId));
    assert_eq!(check_decimals(&short, 6), Err(ProgramError::InvalidAccountData));
}

#[test]
fn rent_minimum_matches_pinocchio() {
    let rent = rent_sysvar(6960);
    let reference = pinocchio::sysvars::rent::Rent::from_bytes(&rent.data).unwrap();
    for len in [0usize, 40, 41, 82, 165, 10 * 1024 * 1024] {
        assert_eq!(minimum_balance(&rent, len), Ok(reference.try_minimum_balance(len).unwrap()));
    }
    assert_eq!(minimum_balance(&rent, 165), Ok(2_039_280));
    assert_eq!(minimum_balance(&rent, 10 * 1024 * 1024 + 1), Err(ProgramError::InvalidArgument));
    assert_eq!(minimum_balance(&rent_sysvar(MAX_LAMPORTS_PER_BYTE + 1), 1), Err(ProgramError::InvalidArgument));
    let mut short = rent_sysvar(6960);
    short.data.truncate(7);
    assert_eq!(minimum_balance(&short, 1), Err(ProgramError::InvalidArgument));
    let mut not_rent = rent_sysvar(6960);
    not_rent.address = [1; 32];
    assert_eq!(minimum_balance(&not_rent, 1), Err(ProgramError::InvalidArgument));
}

#[test]
fn rent_exempt_from_account_lamports() {
    let payer = acct([1; 32], [0; 32], 5, vec![]);
    let rent = rent_sysvar(6960);
    assert_eq!(get_rent_exempt(&payer, &rent, 165), Ok(2_039_280));
    let empty = acct([1; 32], [0; 32], 0, vec![]);
    assert_eq!(get_rent_exempt(&empty, &rent, 165), Err(ProgramError::UninitializedAccount));
}

#[test]
fn rent_exemption_checks() {
    let rent = rent_sysvar(6960);
    let mut ata = token_account([3; 32], [4; 32], [5; 32], 1);
    ata.lamports = 2_039_280;
    assert_eq!(rent_exempt_tokacct(&ata, &rent), Ok(()));
    ata.lamports = 2_039_279;
    assert_eq!(rent_exempt_tokacct(&ata, &rent), Ee::NoRentExemptTokAcct.e());
    let mut mint = mint_account([4; 32], 6);
    mint.lamports = (128 + 82) * 6960;
    assert_eq!(rent_exempt_mint(&mint, &rent), Ok(()));
    mint.lamports -= 1;
    assert_eq!(rent_exempt_mint(&mint, &rent), Ee::NoRentExemptMint.e());
    let mut not_rent = rent_sysvar(6960);
    not_rent.address = [1; 32];
    assert_eq!(rent_exempt_mint(&mint, &not_rent), Err(ProgramError::InvalidArgument));
}

#[test]
fn close_pda_moves_lamports_and_closes() {
    let mut pda = acct([1; 32], PROG_ADDR, 300, vec![5; 40]);
    let mut dest = acct([2; 32], [0; 32], 700, vec![]);
    assert_eq!(close_pda(&mut pda, &mut dest), Ok(()));
    assert_eq!(dest.lamports, 1000);
    assert_eq!(pda.lamports, 0);
    assert!(pda.data.is_empty());
    assert_eq!(pda.owner, SYSTEM_PROGRAM_ID);
    assert_eq!(pda.lamports + dest.lamports, 1000);
}

#[test]
fn close_pda_overflow_only_marks() {
    let mut pda = acct([1; 32], PROG_ADDR, 2, vec![5; 40]);
    let mut dest = acct([2; 32], [0; 32], u64::MAX, vec![]);
    assert_eq!(close_pda(&mut pda, &mut dest), Err(ProgramError::ArithmeticOverflow));
    assert_eq!(pda.data[0], 0xff);
    assert_eq!(pda.data[1], 5);
    assert_eq!(pda.lamports, 2);
    assert_eq!(dest.lamports, u64::MAX);
}
