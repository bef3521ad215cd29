use vstd::prelude::*;
use crate::account::AccountView;
use crate::address::{ATOKENGPVBD, RENT_ID, SYSTEM_PROGRAM_ID};
use crate::cpi::Action;
use crate::error::{Ee, ProgramError, ProgramResult};
use crate::utils::{
    and_then, check_ata, check_atoken_gpvbd, check_data_len, check_mint0a, check_rent_sysvar,
    check_signer, check_sysprog, executable, fail_if, rent_exempt_mint, rent_exempt_tokacct,
    rent_rate_in_range, spec_check_address, spec_check_ata, spec_check_data_len,
    spec_check_mint0a, spec_check_signer, spec_rent_exempt, writable, MINT_LEN,
    TOKEN_ACCOUNT_LEN,
};

verus! {

/// Vault ATA Init: makes the vault's associated token account for a mint, or
/// checks the one that exists.
///
/// Accounts: signer, vault, vault token account, mint, token program, system
/// program, associated token program, rent sysvar. Data: one byte, the mint's
/// decimals.
pub struct VaultAtaInit {
    pub signer: usize,
    pub mint: usize,
    pub vault: usize,
    pub vault_tokacct: usize,
    pub token_program: usize,
    pub system_program: usize,
    pub atoken_program: usize,
    pub rent_sysvar: usize,
}

/// The checks of Vault ATA Init that come before any rent is read: one data
/// byte (`InputDataLen`), eight accounts (`NotEnoughAccountKeys`), the signer,
/// the token program executable, the system program, associated token program
/// and rent sysvar at their addresses, and the vault token account and the
/// vault writable.
pub open spec fn vault_ata_fixed_check(data: Seq<u8>, accounts: Seq<AccountView>) -> ProgramResult {
    and_then(
        spec_check_data_len(data, 1),
        if accounts.len() != 8 {
            Err(ProgramError::NotEnoughAccountKeys)
        } else {
            and_then(spec_check_signer(accounts[0]),
            and_then(fail_if(!accounts[4].executable, Ee::NotExecutable),
            and_then(spec_check_address(accounts[5], SYSTEM_PROGRAM_ID, Ee::SystemProgram),
            and_then(spec_check_address(accounts[6], ATOKENGPVBD, Ee::AtokenGPvbd),
            and_then(spec_check_address(accounts[7], RENT_ID, Ee::RentSysvar),
            and_then(fail_if(!accounts[2].is_writable, Ee::NotWritable),
            fail_if(!accounts[1].is_writable, Ee::NotWritable)))))))
        },
    )
}

/// The checks of Vault ATA Init on its data and accounts, in order.
pub open spec fn vault_ata_init_check(data: Seq<u8>, accounts: Seq<AccountView>) -> ProgramResult {
    and_then(vault_ata_fixed_check(data, accounts),
    and_then(spec_rent_exempt(accounts[3], accounts[7], MINT_LEN as int, Ee::NoRentExemptMint),
    spec_check_mint0a(accounts[3], accounts[4])))
}

/// Whether the processing of an existing vault token account reads the rent:
/// it holds data and is the vault's token account for the mint.
pub open spec fn vault_ata_reads_rent(accounts: Seq<AccountView>) -> bool {
    accounts[2].data@.len() != 0 && spec_check_ata(accounts[2], accounts[1], accounts[3]) is Ok
}

impl VaultAtaInit {
    pub const DISCRIMINATOR: u8 = 1;

    /// The parsed instruction names the accounts in their fixed positions.
    pub open spec fn wf(&self) -> bool {
        &&& self.signer == 0
        &&& self.vault == 1
        &&& self.vault_tokacct == 2
        &&& self.mint == 3
        &&& self.token_program == 4
        &&& self.system_program == 5
        &&& self.atoken_program == 6
        &&& self.rent_sysvar == 7
    }

    /// The checks that come before any rent is read.
    pub fn check_fixed(data: &[u8], accounts: &[AccountView]) -> (r: ProgramResult)
        ensures
            r == vault_ata_fixed_check(data@, accounts@),
    {
        check_data_len(data, 1)?;
        if accounts.len() != 8 {
            return Err(ProgramError::NotEnoughAccountKeys);
        }
        check_signer(&accounts[0])?;
        executable(&accounts[4])?;
        check_sysprog(&accounts[5])?;
        check_atoken_gpvbd(&accounts[6])?;
        check_rent_sysvar(&accounts[7])?;
        writable(&accounts[2])?;
        writable(&accounts[1])
    }

    /// Parses the instruction from its data and accounts. The checks run in the
    /// order that `vault_ata_init_check` gives; the first that fails decides the
    /// error. The rent sysvar's rate is read once the checks of `check_fixed` passed.
    pub fn try_from(data: &[u8], accounts: &[AccountView]) -> (r: Result<VaultAtaInit, ProgramError>)
        requires
            vault_ata_fixed_check(data@, accounts@) is Ok ==> rent_rate_in_range(accounts@[7]),
        ensures
            vault_ata_init_check(data@, accounts@) is Err
                ==> r == Err::<VaultAtaInit, ProgramError>(vault_ata_init_check(data@, accounts@)->Err_0),
            vault_ata_init_check(data@, accounts@) is Ok ==> r is Ok && r->Ok_0.wf(),
    {
        Self::check_fixed(data, accounts)?;
        rent_exempt_mint(&accounts[3], &accounts[7])?;
        check_mint0a(&accounts[3], &accounts[4])?;
        Ok(VaultAtaInit {
            signer: 0,
            mint: 3,
            vault: 1,
            vault_tokacct: 2,
            token_program: 4,
            system_program: 5,
            atoken_program: 6,
            rent_sysvar: 7,
        })
    }

    /// Whether processing reads the rent (see `vault_ata_reads_rent`).
    pub fn reads_rent(accounts: &[AccountView]) -> (r: bool)
        requires
            accounts@.len() == 8,
        ensures
            r == vault_ata_reads_rent(accounts@),
    {
        !accounts[2].is_data_empty() && check_ata(&accounts[2], &accounts[1], &accounts[3]).is_ok()
    }

    /// Whether `a` is the `Create` of the vault token account.
    pub open spec fn creates_ata(&self, a: Action) -> bool {
        a == (Action::CreateAta {
            funding_account: self.signer,
            account: self.vault_tokacct,
            wallet: self.vault,
            mint: self.mint,
            system_program: self.system_program,
            token_program: self.token_program,
        })
    }

    /// Makes the vault token account when it holds no data (`Some` of its
    /// `Create`); else checks that it is the vault's token account for the mint
    /// and rent exempt (`None`).
    pub fn process(&self, accounts: &[AccountView]) -> (r: Result<Option<Action>, ProgramError>)
        requires
            self.wf(),
            accounts@.len() == 8,
            vault_ata_reads_rent(accounts@) ==> rent_rate_in_range(accounts@[7]),
        ensures
            accounts@[2].data@.len() == 0 ==> r is Ok && r->Ok_0 is Some && self.creates_ata(r->Ok_0->Some_0),
            accounts@[2].data@.len() != 0 ==> {
                let c = and_then(
                    spec_check_ata(accounts@[2], accounts@[1], accounts@[3]),
                    spec_rent_exempt(accounts@[2], accounts@[7], TOKEN_ACCOUNT_LEN as int, Ee::NoRentExemptTokAcct),
                );
                &&& c is Err ==> r == Err::<Option<Action>, ProgramError>(c->Err_0)
                &&& c is Ok ==> r == Ok::<Option<Action>, ProgramError>(None)
            },
    {
        let vault_tokacct = &accounts[self.vault_tokacct];
        if vault_tokacct.is_data_empty() {
            return Ok(Some(Action::CreateAta {
                funding_account: self.signer,
                account: self.vault_tokacct,
                wallet: self.vault,
                mint: self.mint,
                system_program: self.system_program,
                token_program: self.token_program,
            }));
        }
        check_ata(vault_tokacct, &accounts[self.vault], &accounts[self.mint])?;
        rent_exempt_tokacct(vault_tokacct, &accounts[self.rent_sysvar])?;
        Ok(None)
    }
}

} // verus!

verus! {

/// The vault token account that Vault ATA Init makes is account 2, the one it
/// checks when it exists, for the vault (account 1) as its wallet and the mint
/// (account 3), paid by the signer (account 0), through the system program
/// (account 5) and the token program (account 4).
pub proof fn law_vault_ata_made_for_the_vault(ix: VaultAtaInit, a: Action)
    requires
        ix.wf(),
        ix.creates_ata(a),
    ensures
        a matches Action::CreateAta { funding_account, account, wallet, mint, system_program, token_program } && {
            &&& funding_account == 0
            &&& account == 2
            &&& wallet == 1
            &&& mint == 3
            &&& system_program == 5
            &&& token_program == 4
        },
{
}

} // verus!
