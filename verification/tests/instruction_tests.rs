use flashloan::account::AccountView;
use flashloan::address::{INSTRUCTIONS_ID, RENT_ID, SYSTEM_PROGRAM_ID, TOKEN_PROGRAM_ID};
use flashloan::cpi::{AccountMeta, Action};
use flashloan::instructions::flashloan_borrow::{balc_plus_fee, BorrowPhase, Introspection};
use flashloan::instructions::tok_lgc_deposit::DepositPhase;
use flashloan::instructions::vault_init::VaultInitPhase;
use flashloan::processor::route_instruction;
use flashloan::utils::{MINT_LEN, TOKEN_ACCOUNT_LEN};
use flashloan::{
    Ee, FlashloanBorrow, FlashloanRepay, FuncCaller, InitAnchorPdaCaller, Loan, ProgramError,
    RepayIx, TokLgcDeposit, Vault, VaultAtaInit, VaultInit, ATOKENGPVBD, ID, PROG_ADDR,
};

const RATE: u64 = 6960;

fn acct(address: [u8; 32], owner: [u8; 32], lamports: u64, data: Vec<u8>) -> AccountView {
    AccountView { address, owner, lamports, data, is_signer: false, is_writable: false, executable: false }
}

fn signer(address: [u8; 32]) -> AccountView {
    let mut a = acct(address, SYSTEM_PROGRAM_ID, 10_000_000_000, vec![]);
    a.is_signer = true;
    a.is_writable = true;
    a
}

fn token_account(address: [u8; 32], mint: [u8; 32], owner: [u8; 32], amount: u64) -> AccountView {
    let mut data = vec![0u8; TOKEN_ACCOUNT_LEN];
    data[0..32].copy_from_slice(&mint);
    data[32..64].copy_from_slice(&owner);
    data[64..72].copy_from_slice(&amount.to_le_bytes());
    let mut a = acct(address, TOKEN_PROGRAM_ID, (128 + 165) * RATE, data);
    a.is_writable = true;
    a
}

fn mint_account(address: [u8; 32], decimals: u8) -> AccountView {
    let mut data = vec![0u8; MINT_LEN];
    data[44] = decimals;
    acct(address, TOKEN_PROGRAM_ID, (128 + 82) * RATE, data)
}

fn token_program() -> AccountView {
    let mut a = acct(TOKEN_PROGRAM_ID, [0; 32], 1, vec![]);
    a.executable = true;
    a
}

fn rent_sysvar() -> AccountView {
    acct(RENT_ID, SYSTEM_PROGRAM_ID, 1, RATE.to_le_bytes().to_vec())
}

fn vault(address: [u8; 32]) -> AccountView {
    let mut a = acct(address, PROG_ADDR, (128 + 41) * RATE, vec![0; 41]);
    a.is_writable = true;
    a
}

fn new_vault(address: [u8; 32]) -> AccountView {
    let mut a = acct(address, SYSTEM_PROGRAM_ID, 0, vec![]);
    a.is_writable = true;
    a
}

const SIGNER: [u8; 32] = [11; 32];
const LOANS: [u8; 32] = [12; 32];
const MINT: [u8; 32] = [13; 32];
const VAULT: [u8; 32] = [14; 32];
const VAULT_ATA: [u8; 32] = [15; 32];
const DEBTOR_ATA: [u8; 32] = [16; 32];

// ---------------- routing

#[test]
fn route_dispatches_the_six_instructions() {
    assert_eq!(route_instruction(&ID, &[3, 1, 2]), Ok(3));
    for d in 0..6u8 {
        assert_eq!(route_instruction(&ID, &[d, 7]), Ok(d));
    }
    assert_eq!(route_instruction(&ID, &[6]), Err(ProgramError::Custom(Ee::MethodDiscriminator.code())));
    assert_eq!(route_instruction(&ID, &[255]), Err(ProgramError::Custom(Ee::MethodDiscriminator.code())));
    assert_eq!(route_instruction(&ID, &[]), Err(ProgramError::InvalidInstructionData));
    assert_eq!(route_instruction(&[1; 32], &[3]), Err(ProgramError::IncorrectProgramId));
}

// ---------------- VaultInit

fn vault_init_accounts() -> Vec<AccountView> {
    vec![signer(SIGNER), acct(SYSTEM_PROGRAM_ID, [0; 32], 1, vec![]), rent_sysvar(), new_vault(VAULT)]
}

#[test]
fn vault_init_parses_one_vault() {
    let accounts = vault_init_accounts();
    let ix = VaultInit::try_from(&[254, 30, 0], &accounts).unwrap();
    assert_eq!(ix.vaults, 3);
    assert_eq!(ix.vaults_len, 1);
    assert_eq!(ix.vault_bumps, vec![254]);
    assert_eq!(ix.fees, vec![30]);
}

#[test]
fn vault_init_errors() {
    let accounts = vault_init_accounts();
    assert_eq!(VaultInit::try_from(&[254, 30], &accounts).err(), Some(ProgramError::Custom(Ee::InputDataLen.code())));
    assert_eq!(VaultInit::try_from(&[254, 30, 0], &accounts[..2]).err(), Some(ProgramError::NotEnoughAccountKeys));
    assert_eq!(VaultInit::try_from(&[254, 30, 0], &accounts[..3]).err(), Some(ProgramError::Custom(Ee::TxnLenInvalid.code())));
    let mut two = vault_init_accounts();
    two.push(new_vault([20; 32]));
    assert_eq!(VaultInit::try_from(&[254, 253, 30], &two).err(), Some(ProgramError::Custom(Ee::ByteSizeFees.code())));
    let mut five = vault_init_accounts();
    for k in 0..4 {
        five.push(new_vault([21 + k; 32]));
    }
    assert_eq!(VaultInit::try_from(&[1, 2, 3], &five).err(), Some(ProgramError::Custom(Ee::ByteSizeVaultBumps.code())));
    let mut unsigned = vault_init_accounts();
    unsigned[0].is_signer = false;
    assert_eq!(VaultInit::try_from(&[254, 30, 0], &unsigned).err(), Some(ProgramError::MissingRequiredSignature));
    let mut existing = vault_init_accounts();
    existing[3].data = vec![0; 41];
    assert_eq!(VaultInit::try_from(&[254, 30, 0], &existing).err(), Some(ProgramError::Custom(Ee::VaultExists.code())));
    assert_eq!(VaultInit::try_from(&[0, 30, 0], &accounts).err(), Some(ProgramError::Custom(Ee::ZeroU8.code())));
    assert_eq!(VaultInit::try_from(&[254, 0, 0], &accounts).err(), Some(ProgramError::Custom(Ee::ZeroU16.code())));
    let mut bad_sys = vault_init_accounts();
    bad_sys[1].address = [1; 32];
    assert_eq!(VaultInit::try_from(&[254, 30, 0], &bad_sys).err(), Some(ProgramError::Custom(Ee::SystemProgram.code())));
}

#[test]
fn vault_init_creates_and_writes_bump() {
    let accounts = vault_init_accounts();
    let ix = VaultInit::try_from(&[254, 0x34, 0x12], &accounts).unwrap();
    match ix.process(&accounts, 0).unwrap() {
        Action::CreateAccount { from, to, lamports, space, owner, signer } => {
            assert_eq!((from, to, space), (0, 3, 41));
            assert_eq!(lamports, (128 + 41) * RATE);
            assert_eq!(owner, PROG_ADDR);
            assert_eq!(&signer.prefix, b"vault");
            assert_eq!(signer.key, vec![0x34, 0x12]);
            assert_eq!(signer.bump, 254);
        }
        other => panic!("unexpected action {:?}", other),
    }
    let mut created = vault(VAULT);
    assert_eq!(VaultInit::write_bump(&mut created, 254), Ok(()));
    assert_eq!(created.data[40], 254);
    assert_eq!(Vault::from_account_view(&created).unwrap().bump(), 254);
    let mut foreign = vault(VAULT);
    foreign.owner = [0; 32];
    assert_eq!(VaultInit::write_bump(&mut foreign, 254), Ee::VaultIsForeign.e());
}

// ---------------- VaultAtaInit

fn vault_ata_init_accounts(vault_tokacct: AccountView) -> Vec<AccountView> {
    vec![
        signer(SIGNER),
        vault(VAULT),
        vault_tokacct,
        mint_account(MINT, 6),
        token_program(),
        acct(SYSTEM_PROGRAM_ID, [0; 32], 1, vec![]),
        acct(ATOKENGPVBD, [0; 32], 1, vec![]),
        rent_sysvar(),
    ]
}

#[test]
fn vault_ata_init_makes_missing_account() {
    let mut empty = acct(VAULT_ATA, SYSTEM_PROGRAM_ID, 0, vec![]);
    empty.is_writable = true;
    let accounts = vault_ata_init_accounts(empty);
    let ix = VaultAtaInit::try_from(&[6], &accounts).unwrap();
    match ix.process(&accounts).unwrap() {
        Some(Action::CreateAta { funding_account, account, wallet, mint, system_program, token_program }) => {
            assert_eq!((funding_account, account, wallet, mint, system_program, token_program), (0, 2, 1, 3, 5, 4));
        }
        other => panic!("unexpected action {:?}", other),
    }
}

#[test]
fn vault_ata_init_checks_existing_account() {
    let accounts = vault_ata_init_accounts(token_account(VAULT_ATA, MINT, VAULT, 0));
    let ix = VaultAtaInit::try_from(&[6], &accounts).unwrap();
    assert!(matches!(ix.process(&accounts), Ok(None)));
    let wrong = vault_ata_init_accounts(token_account(VAULT_ATA, MINT, SIGNER, 0));
    let ix = VaultAtaInit::try_from(&[6], &wrong).unwrap();
    assert_eq!(ix.process(&wrong).err(), Some(ProgramError::Custom(Ee::AtaOrOwner.code())));
    let mut poor = token_account(VAULT_ATA, MINT, VAULT, 0);
    poor.lamports = 1;
    let poor = vault_ata_init_accounts(poor);
    let ix = VaultAtaInit::try_from(&[6], &poor).unwrap();
    assert_eq!(ix.process(&poor).err(), Some(ProgramError::Custom(Ee::NoRentExemptTokAcct.code())));
}

#[test]
fn vault_ata_init_errors() {
    let accounts = vault_ata_init_accounts(token_account(VAULT_ATA, MINT, VAULT, 0));
    assert_eq!(VaultAtaInit::try_from(&[6, 0], &accounts).err(), Some(ProgramError::Custom(Ee::InputDataLen.code())));
    assert_eq!(VaultAtaInit::try_from(&[6], &accounts[..7]).err(), Some(ProgramError::NotEnoughAccountKeys));
    let mut nine = vault_ata_init_accounts(token_account(VAULT_ATA, MINT, VAULT, 0));
    nine.push(acct([3; 32], [0; 32], 1, vec![]));
    assert_eq!(VaultAtaInit::try_from(&[6], &nine).err(), Some(ProgramError::NotEnoughAccountKeys));
    let mut not_rent = vault_ata_init_accounts(token_account(VAULT_ATA, MINT, VAULT, 0));
    not_rent[7] = acct([3; 32], SYSTEM_PROGRAM_ID, 1, u64::MAX.to_le_bytes().to_vec());
    assert_eq!(VaultAtaInit::check_fixed(&[6], &not_rent), Err(ProgramError::Custom(Ee::RentSysvar.code())));
    assert_eq!(VaultAtaInit::try_from(&[6], &not_rent).err(), Some(ProgramError::Custom(Ee::RentSysvar.code())));
    let mut not_exec = vault_ata_init_accounts(token_account(VAULT_ATA, MINT, VAULT, 0));
    not_exec[4].executable = false;
    assert_eq!(VaultAtaInit::try_from(&[6], &not_exec).err(), Some(ProgramError::Custom(Ee::NotExecutable.code())));
    let mut bad_atoken = vault_ata_init_accounts(token_account(VAULT_ATA, MINT, VAULT, 0));
    bad_atoken[6].address = [1; 32];
    assert_eq!(VaultAtaInit::try_from(&[6], &bad_atoken).err(), Some(ProgramError::Custom(Ee::AtokenGPvbd.code())));
    let mut poor_mint = vault_ata_init_accounts(token_account(VAULT_ATA, MINT, VAULT, 0));
    poor_mint[3].lamports = 0;
    assert_eq!(VaultAtaInit::try_from(&[6], &poor_mint).err(), Some(ProgramError::Custom(Ee::NoRentExemptMint.code())));
    let mut bad_mint = vault_ata_init_accounts(token_account(VAULT_ATA, MINT, VAULT, 0));
    bad_mint[3].data.pop();
    assert_eq!(VaultAtaInit::try_from(&[6], &bad_mint).err(), Some(ProgramError::Custom(Ee::MintDataLen.code())));
}

// ---------------- TokLgcDeposit

fn deposit_accounts(vault_ata: AccountView) -> Vec<AccountView> {
    vec![
        signer(SIGNER),
        token_account(DEBTOR_ATA, MINT, SIGNER, 5_000),
        mint_account(MINT, 6),
        token_program(),
        acct(SYSTEM_PROGRAM_ID, [0; 32], 1, vec![]),
        acct(ATOKENGPVBD, [0; 32], 1, vec![]),
        rent_sysvar(),
        vault(VAULT),
        vault_ata,
    ]
}

fn deposit_data(decimals: u8, amounts: &[u64]) -> Vec<u8> {
    let mut data = vec![decimals];
    for a in amounts {
        data.extend_from_slice(&a.to_le_bytes());
    }
    data
}

#[test]
fn deposit_into_new_vault_account() {
    let mut empty = acct(VAULT_ATA, SYSTEM_PROGRAM_ID, 0, vec![]);
    empty.is_writable = true;
    let accounts = deposit_accounts(empty);
    let ix = TokLgcDeposit::try_from(&deposit_data(6, &[1_000]), &accounts).unwrap();
    assert_eq!(ix.amounts, vec![1_000]);
    assert_eq!(ix.decimals, 6);
    let actions = ix.process(&accounts, 0).unwrap();
    assert_eq!(actions.len(), 2);
    assert!(matches!(actions[0], Action::CreateAta { funding_account: 0, account: 8, wallet: 7, mint: 2, system_program: 4, token_program: 3 }));
    assert!(matches!(actions[1], Action::TransferChecked { from: 1, mint: 2, to: 8, authority: 0, amount: 1_000, decimals: 6, signer: None }));
}

#[test]
fn deposit_steps_go_deposit_by_deposit() {
    let accounts = deposit_accounts(token_account(VAULT_ATA, MINT, VAULT, 0));
    let ix = TokLgcDeposit::try_from(&deposit_data(6, &[5_000]), &accounts).unwrap();
    let (phase, actions) = ix.next(DepositPhase::Deposit { next: 0 }, &accounts).unwrap();
    assert_eq!(phase, DepositPhase::Deposit { next: 1 });
    assert_eq!(actions.len(), 1);
    assert!(matches!(actions[0], Action::TransferChecked { to: 8, amount: 5_000, .. }));
    let (phase, actions) = ix.next(phase, &accounts).unwrap();
    assert_eq!((phase, actions.len()), (DepositPhase::Done, 0));
    let zero = TokLgcDeposit::try_from(&deposit_data(6, &[0]), &accounts).unwrap();
    assert_eq!(zero.next(DepositPhase::Deposit { next: 0 }, &accounts).err(), Some(ProgramError::Custom(Ee::ZeroU64.code())));
}

#[test]
fn deposit_into_existing_vault_account() {
    let accounts = deposit_accounts(token_account(VAULT_ATA, MINT, VAULT, 0));
    let ix = TokLgcDeposit::try_from(&deposit_data(6, &[5_000]), &accounts).unwrap();
    let actions = ix.process(&accounts, 0).unwrap();
    assert_eq!(actions.len(), 1);
    assert!(matches!(actions[0], Action::TransferChecked { amount: 5_000, .. }));
}

#[test]
fn deposit_errors() {
    let accounts = deposit_accounts(token_account(VAULT_ATA, MINT, VAULT, 0));
    assert_eq!(TokLgcDeposit::try_from(&deposit_data(6, &[5_001]), &accounts).err(), Some(ProgramError::InsufficientFunds));
    assert_eq!(TokLgcDeposit::try_from(&deposit_data(9, &[1]), &accounts).err(), Some(ProgramError::Custom(Ee::DecimalsValue.code())));
    assert_eq!(TokLgcDeposit::try_from(&[], &accounts).err(), Some(ProgramError::Custom(Ee::ByteSizeForU8.code())));
    assert_eq!(TokLgcDeposit::try_from(&[6, 1, 2], &accounts).err(), Some(ProgramError::Custom(Ee::DataArgLenForU64.code())));
    assert_eq!(TokLgcDeposit::try_from(&deposit_data(6, &[1, 2]), &accounts).err(), Some(ProgramError::Custom(Ee::AmountsLenVsTxnAcctsLen.code())));
    assert_eq!(TokLgcDeposit::try_from(&deposit_data(6, &[1]), &accounts[..8]).err(), Some(ProgramError::Custom(Ee::TxnLenInvalid.code())));
    let mut odd = deposit_accounts(token_account(VAULT_ATA, MINT, VAULT, 0));
    odd.push(vault([30; 32]));
    assert_eq!(TokLgcDeposit::try_from(&deposit_data(6, &[1]), &odd).err(), Some(ProgramError::Custom(Ee::TxnAcctsLength.code())));
    let mut foreign = deposit_accounts(token_account(VAULT_ATA, MINT, VAULT, 0));
    foreign[7].owner = [2; 32];
    assert_eq!(TokLgcDeposit::try_from(&deposit_data(6, &[1]), &foreign).err(), Some(ProgramError::Custom(Ee::ForeignPDA.code())));
    assert_eq!(TokLgcDeposit::try_from(&deposit_data(6, &[1]), &accounts[..6]).err(), Some(ProgramError::NotEnoughAccountKeys));
    let ix = TokLgcDeposit::try_from(&deposit_data(6, &[0]), &accounts).unwrap();
    assert_eq!(ix.process(&accounts, 0).err(), Some(ProgramError::Custom(Ee::ZeroU64.code())));
}

#[test]
fn deposit_sum_beyond_u64_is_insufficient() {
    let mut accounts = deposit_accounts(token_account(VAULT_ATA, MINT, VAULT, 0));
    accounts.push(vault([30; 32]));
    accounts.push(token_account([31; 32], MINT, [30; 32], 0));
    let overflow = deposit_data(6, &[u64::MAX, 1]);
    assert_eq!(TokLgcDeposit::try_from(&overflow, &accounts).err(), Some(ProgramError::InsufficientFunds));
    // the earlier checks still decide first
    let wrong_decimals = deposit_data(7, &[u64::MAX, 1]);
    assert_eq!(TokLgcDeposit::try_from(&wrong_decimals, &accounts).err(), Some(ProgramError::Custom(Ee::DecimalsValue.code())));
    assert_eq!(TokLgcDeposit::try_from(&overflow, &accounts[..10]).err(), Some(ProgramError::Custom(Ee::TxnAcctsLength.code())));
    let mut rich = accounts;
    rich[1] = token_account(DEBTOR_ATA, MINT, SIGNER, u64::MAX);
    assert_eq!(TokLgcDeposit::try_from(&overflow, &rich).err(), Some(ProgramError::InsufficientFunds));
    let ix = TokLgcDeposit::try_from(&deposit_data(6, &[u64::MAX - 1, 1]), &rich).unwrap();
    assert_eq!(ix.amounts, vec![u64::MAX - 1, 1]);
}

#[test]
fn deposit_rent_is_read_only_at_the_rent_sysvar() {
    let mut accounts = deposit_accounts(token_account(VAULT_ATA, MINT, VAULT, 0));
    accounts[6] = acct([3; 32], SYSTEM_PROGRAM_ID, 1, u64::MAX.to_le_bytes().to_vec());
    assert_eq!(TokLgcDeposit::check_fixed_accounts(&accounts), Err(ProgramError::Custom(Ee::RentSysvar.code())));
    assert_eq!(TokLgcDeposit::try_from(&deposit_data(6, &[1]), &accounts).err(), Some(ProgramError::Custom(Ee::RentSysvar.code())));
    let good = deposit_accounts(token_account(VAULT_ATA, MINT, VAULT, 0));
    assert_eq!(TokLgcDeposit::check_fixed_accounts(&good), Ok(()));
    let ix = TokLgcDeposit::try_from(&deposit_data(6, &[1]), &good).unwrap();
    assert!(ix.reads_rent(&good, 0));
    let mut empty = acct(VAULT_ATA, SYSTEM_PROGRAM_ID, 0, vec![]);
    empty.is_writable = true;
    assert!(!ix.reads_rent(&deposit_accounts(empty), 0));
}

// ---------------- FuncCaller and InitAnchorPdaCaller

fn caller_accounts(n: usize) -> Vec<AccountView> {
    let mut v = vec![
        signer(SIGNER),
        acct([40; 32], [0; 32], 1, vec![]),
        acct(SYSTEM_PROGRAM_ID, [0; 32], 1, vec![]),
        rent_sysvar(),
    ];
    for k in 0..n {
        v.push(new_vault([50 + k as u8; 32]));
    }
    v
}

#[test]
fn func_caller_builds_the_call() {
    let accounts = caller_accounts(2);
    let ix = FuncCaller::try_from(&[7, 8, 0x10, 0x00, 0x20, 0x01], &accounts).unwrap();
    assert_eq!(ix.fees, vec![0x10, 0x120]);
    match ix.process().unwrap() {
        Action::Invoke { program, accounts, views, data } => {
            assert_eq!(program, 1);
            assert_eq!(data, vec![0, 7, 8, 0x10, 0x00, 0x20, 0x01]);
            assert_eq!(views, vec![0, 2, 3, 4, 5]);
            assert_eq!(accounts[0], AccountMeta { index: 0, is_writable: true, is_signer: true });
            assert_eq!(accounts[1], AccountMeta { index: 2, is_writable: false, is_signer: false });
            assert_eq!(accounts[4], AccountMeta { index: 5, is_writable: true, is_signer: false });
        }
        other => panic!("unexpected action {:?}", other),
    }
}

#[test]
fn func_caller_errors() {
    let one = caller_accounts(1);
    let ix = FuncCaller::try_from(&[7, 0x10, 0x00], &one).unwrap();
    assert_eq!(ix.process().err(), Some(ProgramError::Custom(Ee::TxnAcctsLength.code())));
    assert_eq!(FuncCaller::try_from(&[7, 0x10, 0x00, 9], &one).err(), Some(ProgramError::Custom(Ee::InputDataLen.code())));
    assert_eq!(FuncCaller::try_from(&[7, 0x10], &one).err(), Some(ProgramError::Custom(Ee::ByteSizeFees.code())));
    assert_eq!(FuncCaller::try_from(&[], &one).err(), Some(ProgramError::Custom(Ee::ByteSizeVaultBumps.code())));
    assert_eq!(FuncCaller::try_from(&[], &caller_accounts(0)).err(), Some(ProgramError::Custom(Ee::TxnLenInvalid.code())));
    assert_eq!(FuncCaller::try_from(&[], &caller_accounts(9)).err(), Some(ProgramError::Custom(Ee::TxnLenInvalid.code())));
    assert_eq!(FuncCaller::try_from(&[], &caller_accounts(0)[..3]).err(), Some(ProgramError::NotEnoughAccountKeys));
}

#[test]
fn anchor_caller_builds_the_call() {
    let mut accounts = caller_accounts(1);
    accounts.remove(3);
    let ix = InitAnchorPdaCaller::try_from(&[2, 9, 8, 7], &accounts).unwrap();
    assert_eq!(ix.accts_len, 2);
    assert_eq!(ix.ix_data, vec![9, 8, 7]);
    match ix.process().unwrap() {
        Action::Invoke { program, accounts, views, data } => {
            assert_eq!(program, 1);
            assert_eq!(data, vec![9, 8, 7]);
            assert_eq!(views, vec![3, 0, 2]);
            assert_eq!(accounts, vec![
                AccountMeta { index: 3, is_writable: true, is_signer: false },
                AccountMeta { index: 0, is_writable: true, is_signer: true },
            ]);
        }
        other => panic!("unexpected action {:?}", other),
    }
    let ix = InitAnchorPdaCaller::try_from(&[4], &accounts).unwrap();
    assert_eq!(ix.process().err(), Some(ProgramError::NotEnoughAccountKeys));
    assert_eq!(InitAnchorPdaCaller::try_from(&[], &accounts).err(), Some(ProgramError::Custom(Ee::ByteSizeForU8.code())));
}

#[test]
fn vault_init_steps_create_then_record_the_vault() {
    let mut accounts = vault_init_accounts();
    let ix = VaultInit::try_from(&[254, 30, 0], &accounts).unwrap();
    let mut phase = VaultInitPhase::Create { next: 0 };
    let mut made = 0;
    loop {
        let (next, action) = ix.next(phase, &mut accounts).unwrap();
        match phase {
            VaultInitPhase::Create { next: i } if i < 1 => {
                match action {
                    Some(Action::CreateAccount { to, space, signer, .. }) => {
                        assert_eq!((to, space), (3 + i, 41));
                        assert_eq!(signer.bump, 254);
                        assert_eq!(signer.key, vec![30, 0]);
                    }
                    other => panic!("unexpected action {:?}", other),
                }
                assert_eq!(next, VaultInitPhase::Record { next: i });
                // the runtime makes the account: zeroed data owned by the program
                accounts[3 + i].data = vec![0; 41];
                accounts[3 + i].owner = PROG_ADDR;
                made += 1;
            }
            VaultInitPhase::Record { next: i } => {
                assert!(action.is_none());
                assert_eq!(next, VaultInitPhase::Create { next: i + 1 });
                let v = Vault::from_account_view(&accounts[3 + i]).unwrap();
                assert_eq!((v.bump(), v.token_balc(), *v.admin()), (254, 0, [0; 32]));
            }
            _ => {
                assert!(action.is_none());
                assert_eq!(next, VaultInitPhase::Done);
            }
        }
        if next == VaultInitPhase::Done {
            break;
        }
        phase = next;
    }
    assert_eq!(made, 1);
}

#[test]
fn vault_init_record_step_errors() {
    let mut accounts = vault_init_accounts();
    let ix = VaultInit::try_from(&[254, 30, 0], &accounts).unwrap();
    // the vault was not made: it holds no vault data
    assert_eq!(ix.next(VaultInitPhase::Record { next: 0 }, &mut accounts).err(), Some(ProgramError::Custom(Ee::VaultDataLengh.code())));
    accounts[3].data = vec![0; 41];
    assert_eq!(ix.next(VaultInitPhase::Record { next: 0 }, &mut accounts).err(), Some(ProgramError::Custom(Ee::VaultIsForeign.code())));
    assert_eq!(accounts[3].data, vec![0; 41]);
    assert!(matches!(ix.next(VaultInitPhase::Done, &mut accounts), Ok((VaultInitPhase::Done, None))));
}

// ---------------- FlashloanBorrow and FlashloanRepay

fn borrow_accounts(vault_balc: u64) -> Vec<AccountView> {
    let mut loans = acct(LOANS, SYSTEM_PROGRAM_ID, 0, vec![]);
    loans.is_writable = true;
    vec![
        signer(SIGNER),
        loans,
        mint_account(MINT, 6),
        token_program(),
        acct(SYSTEM_PROGRAM_ID, [0; 32], 1, vec![]),
        rent_sysvar(),
        acct(INSTRUCTIONS_ID, [0; 32], 1, vec![]),
        vault(VAULT),
        token_account(VAULT_ATA, MINT, VAULT, vault_balc),
        token_account(DEBTOR_ATA, MINT, SIGNER, 0),
    ]
}

fn borrow_data(fee: u16, amounts: &[u64]) -> Vec<u8> {
    let mut data = vec![6, 255, 254];
    data.extend_from_slice(&fee.to_le_bytes());
    for a in amounts {
        data.extend_from_slice(&a.to_le_bytes());
    }
    data
}

fn repay_ix() -> RepayIx {
    RepayIx { program_id: ID, data: vec![4], accounts: vec![SIGNER, LOANS, VAULT, VAULT_ATA, DEBTOR_ATA] }
}

#[test]
fn borrow_parses() {
    let accounts = borrow_accounts(10_000);
    let ix = FlashloanBorrow::try_from(&borrow_data(30, &[1_000]), &accounts).unwrap();
    assert_eq!(ix.decimals, 6);
    assert_eq!(ix.loans_bump_a, [255]);
    assert_eq!(ix.vault_bump_a, [254]);
    assert_eq!(ix.fee, 30);
    assert_eq!(ix.amounts, vec![1_000]);
}

#[test]
fn borrow_parse_errors() {
    let accounts = borrow_accounts(10_000);
    assert_eq!(FlashloanBorrow::try_from(&[6, 255], &accounts).err(), Some(ProgramError::Custom(Ee::ByteSizeForU8.code())));
    assert_eq!(FlashloanBorrow::try_from(&[6, 255, 254, 30], &accounts).err(), Some(ProgramError::Custom(Ee::ByteSizeForU16.code())));
    assert_eq!(FlashloanBorrow::try_from(&[6, 255, 254, 30, 0, 1], &accounts).err(), Some(ProgramError::Custom(Ee::DataArgLenForU64.code())));
    assert_eq!(FlashloanBorrow::try_from(&borrow_data(30, &[1, 2]), &accounts).err(), Some(ProgramError::Custom(Ee::AmountsLenVsTxnAcctsLen.code())));
    assert_eq!(FlashloanBorrow::try_from(&borrow_data(30, &[1]), &accounts[..9]).err(), Some(ProgramError::Custom(Ee::TxnAcctsLength.code())));
    assert_eq!(FlashloanBorrow::try_from(&borrow_data(30, &[1]), &accounts[..7]).err(), Some(ProgramError::Custom(Ee::TxnAcctsLength.code())));
    assert_eq!(FlashloanBorrow::try_from(&borrow_data(30, &[1]), &accounts[..6]).err(), Some(ProgramError::NotEnoughAccountKeys));
    let mut full = borrow_accounts(10_000);
    full[1].data = vec![0; 40];
    assert_eq!(FlashloanBorrow::try_from(&borrow_data(30, &[1]), &full).err(), Some(ProgramError::Custom(Ee::LoansPdaHasData.code())));
    let mut no_ix = borrow_accounts(10_000);
    no_ix[6].address = [1; 32];
    assert_eq!(FlashloanBorrow::try_from(&borrow_data(30, &[1]), &no_ix).err(), Some(ProgramError::Custom(Ee::InstructionSysvar.code())));
    let mut other_debtor = borrow_accounts(10_000);
    other_debtor[9] = token_account(DEBTOR_ATA, MINT, VAULT, 0);
    assert_eq!(FlashloanBorrow::try_from(&borrow_data(30, &[1]), &other_debtor).err(), Some(ProgramError::Custom(Ee::AtaOrOwner.code())));
    let mut locked_vault = borrow_accounts(10_000);
    locked_vault[7].is_writable = false;
    assert_eq!(FlashloanBorrow::try_from(&borrow_data(30, &[1]), &locked_vault).err(), Some(ProgramError::Custom(Ee::NotWritable.code())));
}

#[test]
fn borrow_checks_the_repay_instruction() {
    let accounts = borrow_accounts(10_000);
    let ix = FlashloanBorrow::try_from(&borrow_data(30, &[1_000]), &accounts).unwrap();
    assert_eq!(FlashloanBorrow::check_num_instructions(1), Ee::NumOfInstructions.e());
    assert_eq!(FlashloanBorrow::check_num_instructions(2), Ok(()));
    assert_eq!(ix.check_repay_ix(&accounts, &repay_ix()), Ok(()));
    let mut r = repay_ix();
    r.program_id = [1; 32];
    assert_eq!(ix.check_repay_ix(&accounts, &r), Ee::RepayProgId.e());
    let mut r = repay_ix();
    r.data = vec![3];
    assert_eq!(ix.check_repay_ix(&accounts, &r), Ee::RepayDiscriminator.e());
    let mut r = repay_ix();
    r.data = vec![];
    assert_eq!(ix.check_repay_ix(&accounts, &r), Ee::RepayDiscriminator.e());
    let mut r = repay_ix();
    r.accounts[0] = [1; 32];
    assert_eq!(ix.check_repay_ix(&accounts, &r), Ee::RepayIxSigner.e());
    let mut r = repay_ix();
    r.accounts[1] = [1; 32];
    assert_eq!(ix.check_repay_ix(&accounts, &r), Ee::RepayIxLoansPda.e());
    let mut r = repay_ix();
    r.accounts[2] = [1; 32];
    assert_eq!(ix.check_repay_ix(&accounts, &r), Ee::RepayIxVaultPda.e());
    let mut r = repay_ix();
    r.accounts[3] = [1; 32];
    assert_eq!(ix.check_repay_ix(&accounts, &r), Ee::RepayIxVaultAta.e());
    let mut r = repay_ix();
    r.accounts.truncate(4);
    assert_eq!(ix.check_repay_ix(&accounts, &r), Ee::RepayIxDebtorAta.e());
    let zero = FlashloanBorrow::try_from(&borrow_data(30, &[0]), &accounts).unwrap();
    assert_eq!(zero.check_repay_ix(&accounts, &repay_ix()), Ee::BorrowedAmountIsZero.e());
}

#[test]
fn borrow_creates_loans_and_lends() {
    let accounts = borrow_accounts(10_000);
    let ix = FlashloanBorrow::try_from(&borrow_data(30, &[1_000]), &accounts).unwrap();
    match ix.create_loans(&accounts).unwrap() {
        Action::CreateAccount { from, to, lamports, space, owner, signer } => {
            assert_eq!((from, to, space), (0, 1, 40));
            assert_eq!(lamports, (128 + 40) * RATE);
            assert_eq!(owner, PROG_ADDR);
            assert_eq!(&signer.prefix, b"loans");
            assert_eq!(signer.key, SIGNER.to_vec());
            assert_eq!(signer.bump, 255);
        }
        other => panic!("unexpected action {:?}", other),
    }
    let mut loans_data = vec![0u8; 40];
    match ix.process(&accounts, 0, &mut loans_data).unwrap() {
        Action::TransferChecked { from, mint, to, authority, amount, decimals, signer } => {
            assert_eq!((from, mint, to, authority, amount, decimals), (8, 2, 9, 7, 1_000, 6));
            let seeds = signer.unwrap();
            assert_eq!(&seeds.prefix, b"vault");
            assert_eq!(seeds.key, vec![30, 0]);
            assert_eq!(seeds.bump, 254);
        }
        other => panic!("unexpected action {:?}", other),
    }
    let loan = Loan::read_from(&loans_data, 0);
    assert_eq!(loan.vault_ata, VAULT_ATA);
    assert_eq!(loan.balc_plus_fee, 10_000 + 3);
}

#[test]
fn borrow_lending_errors() {
    let accounts = borrow_accounts(10_000);
    let too_big = FlashloanBorrow::try_from(&borrow_data(30, &[10_001]), &accounts).unwrap();
    let mut loans_data = vec![0u8; 40];
    assert_eq!(too_big.process(&accounts, 0, &mut loans_data).err(), Some(ProgramError::Custom(Ee::BorrowAmountTooBig.code())));
    assert_eq!(loans_data, vec![0u8; 40]);
    let empty_vault = borrow_accounts(0);
    let ix = FlashloanBorrow::try_from(&borrow_data(30, &[1]), &empty_vault).unwrap();
    assert_eq!(ix.process(&empty_vault, 0, &mut loans_data).err(), Some(ProgramError::Custom(Ee::VaultAtaBalcZero.code())));
    let rich = borrow_accounts(u64::MAX);
    let ix = FlashloanBorrow::try_from(&borrow_data(2, &[u64::MAX]), &rich).unwrap();
    assert_eq!(ix.process(&rich, 0, &mut loans_data).err(), Some(ProgramError::Custom(Ee::MultDivNone.code())));
    let ix = FlashloanBorrow::try_from(&borrow_data(10_000, &[u64::MAX / 10_000]), &rich).unwrap();
    assert_eq!(ix.process(&rich, 0, &mut loans_data).err(), Some(ProgramError::Custom(Ee::AddToOverflow.code())));
}

#[test]
fn fee_formula() {
    assert_eq!(balc_plus_fee(10_000, 1_000, 30), Ok(10_003));
    assert_eq!(balc_plus_fee(10_000, 9_999, 1), Ok(10_000));
    assert_eq!(balc_plus_fee(0, 10_000, 10_000), Ok(10_000));
    assert_eq!(balc_plus_fee(5, 100, 65535), Ok(5 + 655));
}

fn repay_accounts(loans_data: Vec<u8>, vault_balc: u64) -> Vec<AccountView> {
    let mut loans = acct(LOANS, PROG_ADDR, (128 + 40) * RATE, loans_data);
    loans.is_writable = true;
    vec![
        signer(SIGNER),
        loans,
        vault(VAULT),
        token_account(VAULT_ATA, MINT, VAULT, vault_balc),
        token_account(DEBTOR_ATA, MINT, SIGNER, 0),
    ]
}

fn borrowed_loans() -> Vec<u8> {
    let accounts = borrow_accounts(10_000);
    let ix = FlashloanBorrow::try_from(&borrow_data(30, &[1_000]), &accounts).unwrap();
    let mut loans_data = vec![0u8; 40];
    ix.process(&accounts, 0, &mut loans_data).unwrap();
    loans_data
}

#[test]
fn repay_with_fee_closes_loans() {
    let mut accounts = repay_accounts(borrowed_loans(), 10_003);
    let before = accounts[0].lamports + accounts[1].lamports;
    let ix = FlashloanRepay::try_from(&[], &accounts).unwrap();
    assert_eq!(ix.process(&mut accounts), Ok(()));
    assert_eq!(accounts[1].lamports, 0);
    assert!(accounts[1].data.is_empty());
    assert_eq!(accounts[1].owner, SYSTEM_PROGRAM_ID);
    assert_eq!(accounts[0].lamports, before);
}

#[test]
fn repay_without_fee_is_refused() {
    let mut accounts = repay_accounts(borrowed_loans(), 10_002);
    let ix = FlashloanRepay::try_from(&[], &accounts).unwrap();
    assert_eq!(ix.process(&mut accounts), Ee::RepayVaultBalcNotExpected.e());
    assert_eq!(accounts[1].data.len(), 40);
}

#[test]
fn repay_errors() {
    let mut other = repay_accounts(borrowed_loans(), 20_000);
    other[3] = token_account([99; 32], MINT, VAULT, 20_000);
    let ix = FlashloanRepay::try_from(&[], &other).unwrap();
    assert_eq!(ix.process(&mut other), Ee::RepayVaultAta.e());
    let mut fewer = repay_accounts(borrowed_loans(), 20_000);
    fewer.pop();
    assert_eq!(ix.process(&mut fewer), Ee::RepayTxnAcctsLen.e());
    let mut foreign = repay_accounts(borrowed_loans(), 20_000);
    foreign[3].owner = [1; 32];
    assert_eq!(ix.process(&mut foreign), Err(ProgramError::Custom(Ee::TokenAcctOwner.code())));
    let accounts = repay_accounts(borrowed_loans(), 20_000);
    assert_eq!(FlashloanRepay::try_from(&[], &accounts[..1]).err(), Some(ProgramError::NotEnoughAccountKeys));
    let mut locked = repay_accounts(borrowed_loans(), 20_000);
    locked[1].is_writable = false;
    assert_eq!(FlashloanRepay::try_from(&[], &locked).err(), Some(ProgramError::Custom(Ee::NotWritable.code())));
}

#[test]
fn borrow_steps_create_loans_then_lend_in_order() {
    let accounts = two_loan_borrow_accounts();
    let ix = FlashloanBorrow::try_from(&borrow_data(100, &[1_000, 20_000]), &accounts).unwrap();
    let mut repay = repay_ix();
    repay.accounts.extend_from_slice(&[[17; 32], [18; 32], [19; 32]]);
    let intro = Introspection { num_instructions: 3, last: Some(repay) };
    let mut loans_data = vec![];
    let (phase, action) = ix.next(BorrowPhase::Start, &accounts, &intro, &mut loans_data).unwrap();
    assert_eq!(phase, BorrowPhase::Lend { next: 0 });
    match action {
        Some(Action::CreateAccount { to, space, .. }) => assert_eq!((to, space), (1, 80)),
        other => panic!("unexpected action {:?}", other),
    }
    let mut loans_data = vec![0u8; 80];
    let (phase, action) = ix.next(phase, &accounts, &intro, &mut loans_data).unwrap();
    assert_eq!(phase, BorrowPhase::Lend { next: 1 });
    match action {
        Some(Action::TransferChecked { from, to, authority, amount, .. }) => assert_eq!((from, to, authority, amount), (8, 9, 7, 1_000)),
        other => panic!("unexpected action {:?}", other),
    }
    let (phase, action) = ix.next(phase, &accounts, &intro, &mut loans_data).unwrap();
    assert_eq!(phase, BorrowPhase::Lend { next: 2 });
    match action {
        Some(Action::TransferChecked { from, to, authority, amount, .. }) => assert_eq!((from, to, authority, amount), (11, 12, 10, 20_000)),
        other => panic!("unexpected action {:?}", other),
    }
    let (phase, action) = ix.next(phase, &accounts, &intro, &mut loans_data).unwrap();
    assert_eq!((phase, action.is_none()), (BorrowPhase::Done, true));
    assert_eq!(Loan::read_from(&loans_data, 1).balc_plus_fee, 50_000 + 200);
}

#[test]
fn borrow_start_refuses_before_any_call() {
    let accounts = borrow_accounts(10_000);
    let ix = FlashloanBorrow::try_from(&borrow_data(30, &[1_000]), &accounts).unwrap();
    let mut loans_data = vec![];
    let alone = Introspection { num_instructions: 1, last: None };
    assert_eq!(ix.next(BorrowPhase::Start, &accounts, &alone, &mut loans_data).err(), Some(ProgramError::Custom(Ee::NumOfInstructions.code())));
    let mut r = repay_ix();
    r.data = vec![3];
    let not_repaid = Introspection { num_instructions: 2, last: Some(r) };
    assert_eq!(ix.next(BorrowPhase::Start, &accounts, &not_repaid, &mut loans_data).err(), Some(ProgramError::Custom(Ee::RepayDiscriminator.code())));
    let unread = Introspection { num_instructions: 2, last: None };
    assert_eq!(ix.next(BorrowPhase::Start, &accounts, &unread, &mut loans_data).err(), Some(ProgramError::Custom(Ee::NumOfInstructions.code())));
    assert!(loans_data.is_empty());
}

fn two_loan_borrow_accounts() -> Vec<AccountView> {
    let mut accounts = borrow_accounts(10_000);
    accounts.push(vault([17; 32]));
    accounts.push(token_account([18; 32], MINT, [17; 32], 50_000));
    accounts.push(token_account([19; 32], MINT, SIGNER, 0));
    accounts
}

#[test]
fn two_loans_are_recorded_and_repaid_in_order() {
    let accounts = two_loan_borrow_accounts();
    let ix = FlashloanBorrow::try_from(&borrow_data(100, &[1_000, 20_000]), &accounts).unwrap();
    let mut repay = repay_ix();
    repay.accounts.extend_from_slice(&[[17; 32], [18; 32], [19; 32]]);
    assert_eq!(ix.check_repay_ix(&accounts, &repay), Ok(()));
    let mut loans_data = vec![0u8; 80];
    ix.process(&accounts, 0, &mut loans_data).unwrap();
    ix.process(&accounts, 1, &mut loans_data).unwrap();
    let first = Loan::read_from(&loans_data, 0);
    let second = Loan::read_from(&loans_data, 1);
    assert_eq!((first.vault_ata, first.balc_plus_fee), (VAULT_ATA, 10_000 + 10));
    assert_eq!((second.vault_ata, second.balc_plus_fee), ([18; 32], 50_000 + 200));

    let mut loans = acct(LOANS, PROG_ADDR, (128 + 80) * RATE, loans_data.clone());
    loans.is_writable = true;
    let repay_accounts = |first_balc: u64, second_balc: u64| {
        vec![
            signer(SIGNER),
            loans.clone_view(),
            vault(VAULT),
            token_account(VAULT_ATA, MINT, VAULT, first_balc),
            token_account(DEBTOR_ATA, MINT, SIGNER, 0),
            vault([17; 32]),
            token_account([18; 32], MINT, [17; 32], second_balc),
            token_account([19; 32], MINT, SIGNER, 0),
        ]
    };
    let rp = FlashloanRepay::try_from(&[], &repay_accounts(0, 0)).unwrap();
    let mut short_second = repay_accounts(10_010, 50_199);
    assert_eq!(rp.process(&mut short_second), Ee::RepayVaultBalcNotExpected.e());
    let mut short_first = repay_accounts(10_009, 50_200);
    assert_eq!(rp.process(&mut short_first), Ee::RepayVaultBalcNotExpected.e());
    let mut repaid = repay_accounts(10_010, 50_200);
    assert_eq!(rp.process(&mut repaid), Ok(()));
    assert!(repaid[1].data.is_empty());
}

trait CloneView {
    fn clone_view(&self) -> AccountView;
}

impl CloneView for AccountView {
    fn clone_view(&self) -> AccountView {
        AccountView {
            address: self.address,
            owner: self.owner,
            lamports: self.lamports,
            data: self.data.clone(),
            is_signer: self.is_signer,
            is_writable: self.is_writable,
            executable: self.executable,
        }
    }
}
