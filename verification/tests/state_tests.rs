use flashloan::account::AccountView;
use flashloan::{Ee, Loan, Loans, ProgramError, Vault, PROG_ADDR};

fn vault_account(data: Vec<u8>) -> AccountView {
    AccountView {
        address: [1; 32],
        owner: PROG_ADDR,
        lamports: 1_000_000,
        data,
        is_signer: false,
        is_writable: true,
        executable: false,
    }
}

fn vault_bytes(admin: [u8; 32], balc: u64, bump: u8) -> Vec<u8> {
    let mut data = admin.to_vec();
    data.extend_from_slice(&balc.to_le_bytes());
    data.push(bump);
    data
}

#[test]
fn layout_constants() {
    assert_eq!(Vault::LEN, 41);
    assert_eq!(&Vault::SEED, b"vault");
    assert_eq!(Loan::LEN, 40);
    assert_eq!(&Loans::SEED, b"loans");
}

#[test]
fn vault_reads_its_fields() {
    let acct = vault_account(vault_bytes([9; 32], 1234, 254));
    let v = Vault::from_account_view(&acct).unwrap();
    assert_eq!(v.admin(), &[9u8; 32]);
    assert_eq!(v.token_balc(), 1234);
    assert_eq!(v.bump(), 254);
}

#[test]
fn vault_check_errors() {
    let short = vault_account(vec![0; 40]);
    assert_eq!(Vault::check(&short), Ee::VaultDataLengh.e());
    assert!(matches!(Vault::from_account_view(&short), Err(ProgramError::Custom(34))));
    let mut foreign = vault_account(vec![0; 41]);
    foreign.owner = [3; 32];
    assert_eq!(Vault::check(&foreign), Ee::VaultIsForeign.e());
    assert_eq!(Vault::check(&vault_account(vec![0; 41])), Ok(()));
}

#[test]
fn vault_setters() {
    let acct = vault_account(vault_bytes([0; 32], 0, 0));
    let mut v = Vault::from_account_view(&acct).unwrap();
    v.set_admin(&[7; 32]);
    assert_eq!(v.admin(), &[7u8; 32]);
    assert_eq!(v.set_token_balc(0), Ee::ZeroU64.e());
    assert_eq!(v.token_balc(), 0);
    assert_eq!(v.set_token_balc(55), Ok(()));
    assert_eq!(v.token_balc(), 55);
    assert_eq!(v.set_bump(0), Ee::ZeroU8.e());
    assert_eq!(v.bump(), 0);
    assert_eq!(v.set_bump(200), Ok(()));
    assert_eq!(v.bump(), 200);
}

#[test]
fn vault_store_then_read_gives_it_back() {
    let mut acct = vault_account(vault_bytes([0; 32], 0, 0));
    let mut v = Vault::from_account_view(&acct).unwrap();
    v.set_admin(&[4; 32]);
    v.set_token_balc(u64::MAX).unwrap();
    v.set_bump(3).unwrap();
    v.store(&mut acct);
    assert_eq!(acct.data, vault_bytes([4; 32], u64::MAX, 3));
    let back = Vault::from_account_view(&acct).unwrap();
    assert_eq!(back.admin(), &[4u8; 32]);
    assert_eq!(back.token_balc(), u64::MAX);
    assert_eq!(back.bump(), 3);
}

#[test]
fn loan_records_read_back() {
    let mut data = vec![0u8; 120];
    let a = Loan { vault_ata: [1; 32], balc_plus_fee: 1000 };
    let b = Loan { vault_ata: [2; 32], balc_plus_fee: u64::MAX };
    a.write_to(&mut data, 0);
    b.write_to(&mut data, 2);
    let ra = Loan::read_from(&data, 0);
    let rb = Loan::read_from(&data, 2);
    let untouched = Loan::read_from(&data, 1);
    assert_eq!(ra.vault_ata, [1; 32]);
    assert_eq!(ra.balc_plus_fee, 1000);
    assert_eq!(rb.vault_ata, [2; 32]);
    assert_eq!(rb.balc_plus_fee, u64::MAX);
    assert_eq!(untouched.vault_ata, [0; 32]);
    assert_eq!(untouched.balc_plus_fee, 0);
    assert_eq!(&data[32..40], &1000u64.to_le_bytes());
}
