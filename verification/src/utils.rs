use vstd::prelude::*;
use vstd::bytes::{lemma_auto_spec_u64_to_from_le_bytes, spec_u64_to_le_bytes};
use crate::account::{slice_is_address, AccountView};
use crate::address::{
    address_eq, Address, ATOKENGPVBD, INSTRUCTIONS_ID, PROG_ADDR, RENT_ID, SYSTEM_PROGRAM_ID,
    TOKEN_PROGRAM_ID,
};
use crate::error::{Ee, ProgramError, ProgramResult};
use crate::parse::{custom, le_u64_at, parse_u64};
use crate::rent::{
    rent_is_exempt, rent_lamports_per_byte, rent_try_minimum_balance, spec_is_exempt,
    spec_minimum_balance, MAX_LAMPORTS_PER_BYTE,
};

verus! {

/// The length of SPL Token account data.
pub const TOKEN_ACCOUNT_LEN: usize = 165;

/// The length of SPL Token mint data.
pub const MINT_LEN: usize = 82;

/// A check that passed.
pub open spec fn pass() -> ProgramResult {
    Ok(())
}

/// A check that failed with the program error `e`.
pub open spec fn fail(e: Ee) -> ProgramResult {
    Err(custom(e))
}

/// `first`, and when it passed, `next`.
pub open spec fn and_then(first: ProgramResult, next: ProgramResult) -> ProgramResult {
    if first is Err {
        first
    } else {
        next
    }
}

/// Fails with `e` when `bad` holds.
pub open spec fn fail_if(bad: bool, e: Ee) -> ProgramResult {
    if bad {
        fail(e)
    } else {
        pass()
    }
}

/// The mint that SPL Token account data names (bytes 0..32).
pub open spec fn token_mint(data: Seq<u8>) -> Seq<u8> {
    data.subrange(0, 32)
}

/// The owner that SPL Token account data names (bytes 32..64).
pub open spec fn token_owner(data: Seq<u8>) -> Seq<u8> {
    data.subrange(32, 64)
}

/// The token amount that SPL Token account data holds (bytes 64..72, little-endian).
pub open spec fn token_amount(data: Seq<u8>) -> u64 {
    le_u64_at(data, 64)
}

/// The decimals that SPL Token mint data holds (byte 44).
pub open spec fn mint_decimals(data: Seq<u8>) -> u8 {
    data[44]
}

/// Reading `acc` as an SPL Token account or mint of `len` bytes: its data must
/// have that length and it must belong to the token program.
pub open spec fn spec_token_state(acc: AccountView, len: int) -> ProgramResult {
    if acc.data@.len() != len {
        Err(ProgramError::InvalidAccountData)
    } else if acc.owner@ != TOKEN_PROGRAM_ID@ {
        Err(ProgramError::IncorrectProgramId)
    } else {
        pass()
    }
}

/// Reading `acc` as the rent sysvar: it must have the rent sysvar's address.
pub open spec fn spec_rent_account(acc: AccountView) -> ProgramResult {
    if acc.address@ != RENT_ID@ {
        Err(ProgramError::InvalidArgument)
    } else {
        pass()
    }
}

/// The rent sysvar data of `acc` holds a rate that the rent computations accept,
/// or is too short to be read at all.
pub open spec fn rent_rate_in_range(acc: AccountView) -> bool {
    acc.data@.len() >= 8 ==> rent_lamports_per_byte(acc.data@) <= MAX_LAMPORTS_PER_BYTE
}

/// The data must have exactly `expected` bytes (`InputDataLen`).
pub open spec fn spec_check_data_len(data: Seq<u8>, expected: int) -> ProgramResult {
    fail_if(data.len() != expected, Ee::InputDataLen)
}

/// Checks that `data` has exactly `expected` bytes.
pub fn check_data_len(data: &[u8], expected: usize) -> (r: ProgramResult)
    ensures
        r == spec_check_data_len(data@, expected as int),
{
    if data.len() != expected {
        return Ee::InputDataLen.e();
    }
    Ok(())
}

/// The account must have signed (`MissingRequiredSignature`).
pub open spec fn spec_check_signer(account: AccountView) -> ProgramResult {
    if !account.is_signer {
        Err(ProgramError::MissingRequiredSignature)
    } else {
        pass()
    }
}

/// Checks that the account signed the transaction.
pub fn check_signer(account: &AccountView) -> (r: ProgramResult)
    ensures
        r == spec_check_signer(*account),
{
    if !account.is_signer {
        return Err(ProgramError::MissingRequiredSignature);
    }
    Ok(())
}

/// The token amount read from a token account: it must belong to the token
/// program (`TokenAcctOwner`) and hold token account data (`TokenAcctDataLen`).
pub open spec fn spec_amount_from_token_acct(account: AccountView) -> Result<u64, ProgramError> {
    if account.owner@ != TOKEN_PROGRAM_ID@ {
        Err(custom(Ee::TokenAcctOwner))
    } else if account.data@.len() != TOKEN_ACCOUNT_LEN {
        Err(custom(Ee::TokenAcctDataLen))
    } else {
        Ok(token_amount(account.data@))
    }
}

/// The token amount held by a token account.
pub fn amount_from_token_acct(account: &AccountView) -> (r: Result<u64, ProgramError>)
    ensures
        r == spec_amount_from_token_acct(*account),
{
    if !address_eq(&account.owner, &TOKEN_PROGRAM_ID) {
        return Err(ProgramError::from(Ee::TokenAcctOwner));
    }
    if account.data.len() != TOKEN_ACCOUNT_LEN {
        return Err(ProgramError::from(Ee::TokenAcctDataLen));
    }
    let data = account.data.as_slice();
    let balance = parse_u64(vstd::slice::slice_subrange(data, 64, 72))?;
    Ok(balance)
}

/// `from_ata` must be an SPL Token account holding at least `amount` tokens
/// (`InsufficientFunds`).
pub open spec fn spec_ata_balc(from_ata: AccountView, amount: u64) -> ProgramResult {
    and_then(
        spec_token_state(from_ata, TOKEN_ACCOUNT_LEN as int),
        if token_amount(from_ata.data@) < amount {
            Err(ProgramError::InsufficientFunds)
        } else {
            pass()
        },
    )
}

/// Checks that the token account holds at least `amount` tokens.
pub fn ata_balc(from_ata: &AccountView, amount: u64) -> (r: ProgramResult)
    ensures
        r == spec_ata_balc(*from_ata, amount),
{
    token_state(from_ata, TOKEN_ACCOUNT_LEN)?;
    let data = from_ata.data.as_slice();
    let balance = parse_u64(vstd::slice::slice_subrange(data, 64, 72))?;
    if balance < amount {
        return Err(ProgramError::InsufficientFunds);
    }
    Ok(())
}

/// Checks `acc` as an SPL Token account or mint of `len` data bytes.
fn token_state(acc: &AccountView, len: usize) -> (r: ProgramResult)
    ensures
        r == spec_token_state(*acc, len as int),
{
    if acc.data.len() != len {
        return Err(ProgramError::InvalidAccountData);
    }
    if !address_eq(&acc.owner, &TOKEN_PROGRAM_ID) {
        return Err(ProgramError::IncorrectProgramId);
    }
    Ok(())
}

/// `ata` must be a token account of `owner` for `mint`.
pub open spec fn spec_check_ata(ata: AccountView, owner: AccountView, mint: AccountView) -> ProgramResult {
    if ata.data@.len() == 0 {
        fail(Ee::AtaHasNoData)
    } else if ata.data@.len() != TOKEN_ACCOUNT_LEN {
        fail(Ee::AtaDataLen)
    } else if ata.owner@ != TOKEN_PROGRAM_ID@ {
        Err(ProgramError::IncorrectProgramId)
    } else if token_owner(ata.data@) != owner.address@ {
        fail(Ee::AtaOrOwner)
    } else if token_mint(ata.data@) != mint.address@ {
        fail(Ee::AtaOrMint)
    } else {
        pass()
    }
}

/// Checks that `ata` is a token account of `owner` for `mint`.
pub fn check_ata(ata: &AccountView, owner: &AccountView, mint: &AccountView) -> (r: ProgramResult)
    ensures
        r == spec_check_ata(*ata, *owner, *mint),
{
    let ata_len = ata.data.len();
    if ata_len == 0 {
        return Ee::AtaHasNoData.e();
    }
    if ata_len != TOKEN_ACCOUNT_LEN {
        return Ee::AtaDataLen.e();
    }
    token_state(ata, TOKEN_ACCOUNT_LEN)?;
    let data = ata.data.as_slice();
    if !slice_is_address(data, 32, &owner.address) {
        return Ee::AtaOrOwner.e();
    }
    if !slice_is_address(data, 0, &mint.address) {
        return Ee::AtaOrMint.e();
    }
    Ok(())
}

/// `account` must hold enough lamports to be rent exempt with `len` data bytes,
/// under the rent sysvar `rent_sysvar`; else the check fails with `e`.
pub open spec fn spec_rent_exempt(account: AccountView, rent_sysvar: AccountView, len: int, e: Ee) -> ProgramResult {
    and_then(
        spec_rent_account(rent_sysvar),
        match spec_is_exempt(rent_sysvar.data@, account.lamports, len) {
            Ok(exempt) => fail_if(!exempt, e),
            Err(err) => Err(err),
        },
    )
}

fn rent_exempt(account: &AccountView, rent_sysvar: &AccountView, len: usize, e: Ee) -> (r: ProgramResult)
    requires
        len <= TOKEN_ACCOUNT_LEN,
        rent_rate_in_range(*rent_sysvar),
    ensures
        r == spec_rent_exempt(*account, *rent_sysvar, len as int, e),
{
    if !address_eq(&rent_sysvar.address, &RENT_ID) {
        return Err(ProgramError::InvalidArgument);
    }
    let exempt = rent_is_exempt(rent_sysvar.data.as_slice(), account.lamports, len)?;
    if !exempt {
        return e.e();
    }
    Ok(())
}

/// Checks that a token account holds its rent-exempt minimum (`NoRentExemptTokAcct`).
pub fn rent_exempt_tokacct(account: &AccountView, rent_sysvar: &AccountView) -> (r: ProgramResult)
    requires
        rent_rate_in_range(*rent_sysvar),
    ensures
        r == spec_rent_exempt(*account, *rent_sysvar, TOKEN_ACCOUNT_LEN as int, Ee::NoRentExemptTokAcct),
{
    rent_exempt(account, rent_sysvar, TOKEN_ACCOUNT_LEN, Ee::NoRentExemptTokAcct)
}

/// Fails with `e` unless `account` has the address `expected`.
pub open spec fn spec_check_address(account: AccountView, expected: Address, e: Ee) -> ProgramResult {
    fail_if(account.address@ != expected@, e)
}

/// Checks that the account is the System program (`SystemProgram`).
pub fn check_sysprog(account: &AccountView) -> (r: ProgramResult)
    ensures
        r == spec_check_address(*account, SYSTEM_PROGRAM_ID, Ee::SystemProgram),
{
    if !address_eq(&account.address, &SYSTEM_PROGRAM_ID) {
        return Ee::SystemProgram.e();
    }
    Ok(())
}

/// Checks that the account is the Associated Token Account program (`AtokenGPvbd`).
pub fn check_atoken_gpvbd(account: &AccountView) -> (r: ProgramResult)
    ensures
        r == spec_check_address(*account, ATOKENGPVBD, Ee::AtokenGPvbd),
{
    if !address_eq(&account.address, &ATOKENGPVBD) {
        return Ee::AtokenGPvbd.e();
    }
    Ok(())
}

/// Checks that the account is the rent sysvar (`RentSysvar`).
pub fn check_rent_sysvar(account: &AccountView) -> (r: ProgramResult)
    ensures
        r == spec_check_address(*account, RENT_ID, Ee::RentSysvar),
{
    if !address_eq(&account.address, &RENT_ID) {
        return Ee::RentSysvar.e();
    }
    Ok(())
}

/// The account must be the instructions sysvar.
pub fn check_instruction_sysvar(account: &AccountView) -> (r: ProgramResult)
    ensures
        r == spec_check_address(*account, INSTRUCTIONS_ID, Ee::InstructionSysvar),
{
    if !address_eq(&account.address, &INSTRUCTIONS_ID) {
        return Ee::InstructionSysvar.e();
    }
    Ok(())
}

/// A program account must hold lamports (`PdaNoLamport`) and belong to this
/// program (`ForeignPDA`).
pub open spec fn spec_check_pda(pda: AccountView) -> ProgramResult {
    if pda.lamports == 0 {
        fail(Ee::PdaNoLamport)
    } else if pda.owner@ != PROG_ADDR@ {
        fail(Ee::ForeignPDA)
    } else {
        pass()
    }
}

/// Checks that the account holds lamports and belongs to this program.
pub fn check_pda(pda: &AccountView) -> (r: ProgramResult)
    ensures
        r == spec_check_pda(*pda),
{
    if pda.lamports == 0 {
        return Ee::PdaNoLamport.e();
    }
    if !address_eq(&pda.owner, &PROG_ADDR) {
        return Ee::ForeignPDA.e();
    }
    Ok(())
}

/// The rent-exempt minimum for `data_len` bytes, for an account that holds
/// lamports (`UninitializedAccount`).
pub open spec fn spec_get_rent_exempt(account: AccountView, rent_sysvar: AccountView, data_len: int) -> Result<u64, ProgramError> {
    if account.lamports == 0 {
        Err(ProgramError::UninitializedAccount)
    } else if rent_sysvar.address@ != RENT_ID@ {
        Err(ProgramError::InvalidArgument)
    } else {
        spec_minimum_balance(rent_sysvar.data@, data_len)
    }
}

/// The rent-exempt minimum balance for `data_len` data bytes; `account` must
/// hold lamports.
pub fn get_rent_exempt(account: &AccountView, rent_sysvar: &AccountView, data_len: usize) -> (r: Result<u64, ProgramError>)
    ensures
        r == spec_get_rent_exempt(*account, *rent_sysvar, data_len as int),
{
    if account.lamports == 0 {
        return Err(ProgramError::UninitializedAccount);
    }
    let min_lam = minimum_balance(rent_sysvar, data_len)?;
    Ok(min_lam)
}

/// The rent-exempt minimum for `data_len` bytes read from the rent sysvar account.
pub open spec fn spec_rent_minimum(rent_sysvar: AccountView, data_len: int) -> Result<u64, ProgramError> {
    if rent_sysvar.address@ != RENT_ID@ {
        Err(ProgramError::InvalidArgument)
    } else {
        spec_minimum_balance(rent_sysvar.data@, data_len)
    }
}

/// The rent-exempt minimum balance for `data_len` data bytes, read from the
/// rent sysvar account.
pub fn minimum_balance(rent_sysvar: &AccountView, data_len: usize) -> (r: Result<u64, ProgramError>)
    ensures
        r == spec_rent_minimum(*rent_sysvar, data_len as int),
{
    if !address_eq(&rent_sysvar.address, &RENT_ID) {
        return Err(ProgramError::InvalidArgument);
    }
    rent_try_minimum_balance(rent_sysvar.data.as_slice(), data_len)
}

/// Checks that a mint holds its rent-exempt minimum (`NoRentExemptMint`).
pub fn rent_exempt_mint(account: &AccountView, rent_sysvar: &AccountView) -> (r: ProgramResult)
    requires
        rent_rate_in_range(*rent_sysvar),
    ensures
        r == spec_rent_exempt(*account, *rent_sysvar, MINT_LEN as int, Ee::NoRentExemptMint),
{
    rent_exempt(account, rent_sysvar, MINT_LEN, Ee::NoRentExemptMint)
}

/// `mint` must hold mint data (`MintDataLen`), `token_program` must be the token
/// program (`TokenProgram`), and `mint` must belong to it (`MintOrTokenProgram`).
pub open spec fn spec_check_mint0a(mint: AccountView, token_program: AccountView) -> ProgramResult {
    if mint.data@.len() != MINT_LEN {
        fail(Ee::MintDataLen)
    } else if token_program.address@ != TOKEN_PROGRAM_ID@ {
        fail(Ee::TokenProgram)
    } else if mint.owner@ != TOKEN_PROGRAM_ID@ {
        fail(Ee::MintOrTokenProgram)
    } else {
        pass()
    }
}

/// Checks the mint and the token program it belongs to.
pub fn check_mint0a(mint: &AccountView, token_program: &AccountView) -> (r: ProgramResult)
    ensures
        r == spec_check_mint0a(*mint, *token_program),
{
    if mint.data.len() != MINT_LEN {
        return Ee::MintDataLen.e();
    }
    if !address_eq(&token_program.address, &TOKEN_PROGRAM_ID) {
        return Ee::TokenProgram.e();
    }
    if !address_eq(&mint.owner, &TOKEN_PROGRAM_ID) {
        return Ee::MintOrTokenProgram.e();
    }
    Ok(())
}

/// The account fields other than lamports, owner and data are those of `before`.
pub open spec fn same_identity(after: AccountView, before: AccountView) -> bool {
    &&& after.address == before.address
    &&& after.is_signer == before.is_signer
    &&& after.is_writable == before.is_writable
    &&& after.executable == before.executable
}

/// What closing `pda` into `dest` does, from `pda0`/`dest0` to `pda1`/`dest1`
/// with result `r`: the first data byte of `pda` is marked with `0xff`; when the
/// lamports of `dest` would overflow that is all (`ArithmeticOverflow`); else all
/// lamports of `pda` move to `dest` and `pda` is closed: no data, no lamports,
/// owned by the System program.
pub open spec fn spec_close_pda(pda0: AccountView, dest0: AccountView, pda1: AccountView, dest1: AccountView, r: ProgramResult) -> bool {
    &&& same_identity(pda1, pda0)
    &&& same_identity(dest1, dest0)
    &&& dest1.owner == dest0.owner
    &&& dest1.data@ == dest0.data@
    &&& dest0.lamports + pda0.lamports > u64::MAX ==> {
        &&& r == Err::<(), ProgramError>(ProgramError::ArithmeticOverflow)
        &&& pda1.data@ == pda0.data@.update(0, 0xffu8)
        &&& pda1.lamports == pda0.lamports
        &&& pda1.owner == pda0.owner
        &&& dest1.lamports == dest0.lamports
    }
    &&& dest0.lamports + pda0.lamports <= u64::MAX ==> {
        &&& r == Ok::<(), ProgramError>(())
        &&& dest1.lamports == dest0.lamports + pda0.lamports
        &&& pda1.lamports == 0
        &&& pda1.data@.len() == 0
        &&& pda1.owner@ == SYSTEM_PROGRAM_ID@
    }
}

/// Closes `pda` into `dest`: marks its first data byte with `0xff`, moves all its
/// lamports to `dest`, then closes it (no data, no lamports, owned by the System
/// program). When the lamports of `dest` would overflow, only the mark is made.
pub fn close_pda(pda: &mut AccountView, dest: &mut AccountView) -> (r: ProgramResult)
    requires
        old(pda).data@.len() > 0,
    ensures
        spec_close_pda(*old(pda), *old(dest), *final(pda), *final(dest), r),
{
    pda.data.set(0, 0xff);
    let sum_lam = match dest.lamports.checked_add(pda.lamports) {
        Some(s) => s,
        None => return Err(ProgramError::ArithmeticOverflow),
    };
    dest.lamports = sum_lam;
    pda.lamports = 0;
    pda.data.truncate(1);
    pda.data.clear();
    pda.owner = SYSTEM_PROGRAM_ID;
    Ok(())
}

/// Checks that the account is writable (`NotWritable`).
pub fn writable(account: &AccountView) -> (r: ProgramResult)
    ensures
        r == fail_if(!account.is_writable, Ee::NotWritable),
{
    if !account.is_writable {
        return Ee::NotWritable.e();
    }
    Ok(())
}

/// Checks that the account is a program (`NotExecutable`).
pub fn executable(account: &AccountView) -> (r: ProgramResult)
    ensures
        r == fail_if(!account.executable, Ee::NotExecutable),
{
    if !account.executable {
        return Ee::NotExecutable.e();
    }
    Ok(())
}

/// Checks that the account holds no lamports (`AccountAlreadyInitialized`).
pub fn not_initialized(account: &AccountView) -> (r: ProgramResult)
    ensures
        account.lamports > 0 ==> r == Err::<(), ProgramError>(ProgramError::AccountAlreadyInitialized),
        account.lamports == 0 ==> r == pass(),
{
    if account.lamports > 0 {
        return Err(ProgramError::AccountAlreadyInitialized);
    }
    Ok(())
}

/// Checks that the account holds lamports (`UninitializedAccount`).
pub fn initialized(account: &AccountView) -> (r: ProgramResult)
    ensures
        account.lamports == 0 ==> r == Err::<(), ProgramError>(ProgramError::UninitializedAccount),
        account.lamports > 0 ==> r == pass(),
{
    if account.lamports == 0 {
        return Err(ProgramError::UninitializedAccount);
    }
    Ok(())
}

/// Checks that the account holds no data (`EmptyData`).
pub fn empty_data(account: &AccountView) -> (r: ProgramResult)
    ensures
        r == fail_if(account.data@.len() != 0, Ee::EmptyData),
{
    if account.data.len() == 0 {
        return Ok(());
    }
    Ee::EmptyData.e()
}

/// Checks that the number is not zero (`ZeroU64`).
pub fn none_zero_u64(uint: u64) -> (r: ProgramResult)
    ensures
        r == fail_if(uint == 0, Ee::ZeroU64),
{
    if uint == 0u64 {
        return Ee::ZeroU64.e();
    }
    Ok(())
}

/// Checks that the number is not zero (`ZeroU16`).
pub fn none_zero_u16(uint: u16) -> (r: ProgramResult)
    ensures
        r == fail_if(uint == 0, Ee::ZeroU16),
{
    if uint == 0u16 {
        return Ee::ZeroU16.e();
    }
    Ok(())
}

/// Checks that the number is not zero (`ZeroU8`).
pub fn none_zero_u8(uint: u8) -> (r: ProgramResult)
    ensures
        r == fail_if(uint == 0, Ee::ZeroU8),
{
    if uint == 0u8 {
        return Ee::ZeroU8.e();
    }
    Ok(())
}

/// `mint` must be an SPL Token mint whose decimals are `decimals` (`DecimalsValue`).
pub open spec fn spec_check_decimals(mint: AccountView, decimals: u8) -> ProgramResult {
    and_then(
        spec_token_state(mint, MINT_LEN as int),
        fail_if(decimals != mint_decimals(mint.data@), Ee::DecimalsValue),
    )
}

/// Checks that the mint has `decimals` decimals.
pub fn check_decimals(mint: &AccountView, decimals: u8) -> (r: ProgramResult)
    ensures
        r == spec_check_decimals(*mint, decimals),
{
    token_state(mint, MINT_LEN)?;
    if decimals != mint.data[44] {
        return Ee::DecimalsValue.e();
    }
    Ok(())
}

/// Closing an account into another keeps the lamports of the two together.
pub proof fn law_close_conserves_lamports(pda0: AccountView, dest0: AccountView, pda1: AccountView, dest1: AccountView, r: ProgramResult)
    requires
        spec_close_pda(pda0, dest0, pda1, dest1, r),
    ensures
        dest1.lamports + pda1.lamports == dest0.lamports + pda0.lamports,
{
}

} // verus!

verus! {

/// SPL Token account data laid out as the mint, the owner and the amount
/// (little-endian), then the rest of the account, reads back as that mint,
/// owner and amount.
pub proof fn law_token_account_layout(mint: Seq<u8>, owner: Seq<u8>, amount: u64, rest: Seq<u8>)
    requires
        mint.len() == 32,
        owner.len() == 32,
    ensures
        ({
            let data = mint + owner + spec_u64_to_le_bytes(amount) + rest;
            &&& token_mint(data) == mint
            &&& token_owner(data) == owner
            &&& token_amount(data) == amount
        }),
{
    lemma_auto_spec_u64_to_from_le_bytes();
    let data = mint + owner + spec_u64_to_le_bytes(amount) + rest;
    assert(data.subrange(0, 32) =~= mint);
    assert(data.subrange(32, 64) =~= owner);
    assert(data.subrange(64, 72) =~= spec_u64_to_le_bytes(amount));
}

} // verus!

verus! {

/// A token account passes `check_ata` for an owner and a mint exactly when it
/// holds SPL Token account data, belongs to the token program, and names that
/// owner and that mint.
pub proof fn law_check_ata_accepts(ata: AccountView, owner: AccountView, mint: AccountView)
    ensures
        spec_check_ata(ata, owner, mint) is Ok <==> {
            &&& ata.data@.len() == 165
            &&& ata.owner@ == TOKEN_PROGRAM_ID@
            &&& token_owner(ata.data@) == owner.address@
            &&& token_mint(ata.data@) == mint.address@
        },
{
}

} // verus!
