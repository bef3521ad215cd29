use vstd::prelude::*;
use vstd::slice::slice_subrange;
use crate::account::AccountView;
use crate::address::{ATOKENGPVBD, RENT_ID, SYSTEM_PROGRAM_ID};
use crate::cpi::Action;
use crate::error::{Ee, ProgramError, ProgramResult};
use crate::parse::{custom, law_u64s_read_back, le_u64s, read_u64s, u64s_le_bytes};
use crate::utils::{
    and_then, ata_balc, check_ata, check_atoken_gpvbd, check_decimals, check_mint0a, check_pda,
    check_rent_sysvar, check_signer, check_sysprog, executable, fail_if, none_zero_u64, pass,
    rent_exempt_mint, rent_exempt_tokacct, rent_rate_in_range, spec_ata_balc, spec_check_address,
    spec_check_ata, spec_check_decimals, spec_check_mint0a, spec_check_pda, spec_check_signer,
    spec_rent_exempt, token_amount, writable, MINT_LEN, TOKEN_ACCOUNT_LEN,
};

verus! {

/// The sum of `s`.
pub open spec fn seq_sum(s: Seq<u64>) -> int
    decreases s.len(),
{
    if s.len() == 0 {
        0
    } else {
        seq_sum(s.drop_last()) + s.last()
    }
}

/// The sum of a prefix of `s` is at most the sum of `s`.
pub proof fn lemma_prefix_sum_le(s: Seq<u64>, i: int)
    requires
        0 <= i <= s.len(),
    ensures
        seq_sum(s.take(i)) <= seq_sum(s),
    decreases s.len() - i,
{
    if i < s.len() {
        lemma_prefix_sum_le(s, i + 1);
        assert(s.take(i + 1).drop_last() =~= s.take(i));
    } else {
        assert(s.take(i) =~= s);
    }
}

/// Token Legacy Deposit to Vault: moves tokens from the user's token account
/// into vault token accounts, making a vault token account where it is missing.
///
/// Accounts: user (signer), the user's token account, mint, token program,
/// system program, associated token program, rent sysvar, then a vault and its
/// token account per deposit. Data: the mint's decimals, then one little-endian
/// `u64` amount per deposit.
pub struct TokLgcDeposit {
    pub user: usize,
    pub from_ata: usize,
    pub mint: usize,
    pub token_program: usize,
    pub system_program: usize,
    pub atoken_program: usize,
    pub rent_sysvar: usize,
    /// The position of the first vault; vaults and their token accounts alternate.
    pub txn_accts: usize,
    pub txn_len: usize,
    pub decimals: u8,
    pub amounts: Vec<u64>,
}

/// The checks on deposit `i`: the vault and its token account are writable
/// (`NotWritable`) and the vault is one of this program's accounts.
pub open spec fn deposit_item_check(accounts: Seq<AccountView>, i: int) -> ProgramResult {
    let vault = accounts[7 + 2 * i];
    let vault_ata = accounts[8 + 2 * i];
    and_then(
        fail_if(!vault.is_writable, Ee::NotWritable),
        and_then(fail_if(!vault_ata.is_writable, Ee::NotWritable), spec_check_pda(vault)),
    )
}

/// The checks on deposits `i..n`, in order.
pub open spec fn deposit_items_check(accounts: Seq<AccountView>, n: int, i: int) -> ProgramResult
    decreases n - i,
{
    if i < n {
        and_then(deposit_item_check(accounts, i), deposit_items_check(accounts, n, i + 1))
    } else {
        pass()
    }
}

/// The amounts that deposit data holds after its decimals byte.
pub open spec fn deposit_amounts(data: Seq<u8>) -> Seq<u64> {
    le_u64s(data.subrange(1, data.len() as int))
}

/// The user's token account must hold `total` tokens, counted exactly: after
/// the checks of `ata_balc` on it, a total beyond `u64` is more than any token
/// account holds (`InsufficientFunds`).
pub open spec fn spec_holds_total(from_ata: AccountView, total: int) -> ProgramResult {
    if total <= u64::MAX {
        spec_ata_balc(from_ata, total as u64)
    } else {
        and_then(spec_ata_balc(from_ata, u64::MAX), Err(ProgramError::InsufficientFunds))
    }
}

/// The checks of the data part: decimals present (`ByteSizeForU8`) and those of
/// the mint, whole amounts (`DataArgLenForU64`), one per deposit
/// (`AmountsLenVsTxnAcctsLen`), and a user token account holding their sum.
pub open spec fn deposit_data_check(data: Seq<u8>, accounts: Seq<AccountView>, n: int) -> ProgramResult {
    if data.len() == 0 {
        Err(custom(Ee::ByteSizeForU8))
    } else {
        and_then(spec_check_decimals(accounts[2], data[0]),
        and_then(fail_if((data.len() - 1) % 8 != 0, Ee::DataArgLenForU64),
        and_then(fail_if(deposit_amounts(data).len() != n, Ee::AmountsLenVsTxnAcctsLen),
        spec_holds_total(accounts[1], seq_sum(deposit_amounts(data))))))
    }
}

/// The checks of Token Legacy Deposit on its fixed accounts that come before
/// any rent is read: enough accounts (`NotEnoughAccountKeys`), the user a
/// signer, the token program executable, then the system program, associated
/// token program and rent sysvar at their addresses.
pub open spec fn deposit_fixed_check(accounts: Seq<AccountView>) -> ProgramResult {
    if accounts.len() < 7 {
        Err(ProgramError::NotEnoughAccountKeys)
    } else {
        and_then(spec_check_signer(accounts[0]),
        and_then(fail_if(!accounts[3].executable, Ee::NotExecutable),
        and_then(spec_check_address(accounts[4], SYSTEM_PROGRAM_ID, Ee::SystemProgram),
        and_then(spec_check_address(accounts[5], ATOKENGPVBD, Ee::AtokenGPvbd),
        spec_check_address(accounts[6], RENT_ID, Ee::RentSysvar)))))
    }
}

/// The checks of Token Legacy Deposit on its data and accounts, in order.
pub open spec fn tok_lgc_deposit_check(data: Seq<u8>, accounts: Seq<AccountView>) -> ProgramResult {
    let m = accounts.len() - 7;
    let n = m / 2;
    and_then(deposit_fixed_check(accounts),
    and_then(spec_rent_exempt(accounts[2], accounts[6], MINT_LEN as int, Ee::NoRentExemptMint),
    and_then(spec_check_mint0a(accounts[2], accounts[3]),
    and_then(fail_if(n > 8 || n == 0, Ee::TxnLenInvalid),
    and_then(fail_if(m % 2 != 0, Ee::TxnAcctsLength),
    and_then(deposit_items_check(accounts, n, 0),
    deposit_data_check(data, accounts, n)))))))
}

impl TokLgcDeposit {
    pub const DISCRIMINATOR: u8 = 2;

    /// What a parse of `data` and `accounts` gives when every check passes.
    pub open spec fn parsed_from(&self, data: Seq<u8>, accounts: Seq<AccountView>) -> bool {
        &&& self.user == 0
        &&& self.from_ata == 1
        &&& self.mint == 2
        &&& self.token_program == 3
        &&& self.system_program == 4
        &&& self.atoken_program == 5
        &&& self.rent_sysvar == 6
        &&& self.txn_accts == 7
        &&& self.txn_len == (accounts.len() - 7) / 2
        &&& self.decimals == data[0]
        &&& self.amounts@ == deposit_amounts(data)
    }

    /// The checks on the fixed accounts that come before any rent is read.
    pub fn check_fixed_accounts(accounts: &[AccountView]) -> (r: ProgramResult)
        ensures
            r == deposit_fixed_check(accounts@),
    {
        if accounts.len() < 7 {
            return Err(ProgramError::NotEnoughAccountKeys);
        }
        check_signer(&accounts[0])?;
        executable(&accounts[3])?;
        check_sysprog(&accounts[4])?;
        check_atoken_gpvbd(&accounts[5])?;
        check_rent_sysvar(&accounts[6])
    }

    /// Parses the instruction from its data and accounts. The checks run in the
    /// order that `tok_lgc_deposit_check` gives; the first that fails decides
    /// the error. The rent sysvar's rate is read once the fixed accounts passed.
    pub fn try_from(data: &[u8], accounts: &[AccountView]) -> (r: Result<TokLgcDeposit, ProgramError>)
        requires
            deposit_fixed_check(accounts@) is Ok ==> rent_rate_in_range(accounts@[6]),
        ensures
            tok_lgc_deposit_check(data@, accounts@) is Err
                ==> r == Err::<TokLgcDeposit, ProgramError>(tok_lgc_deposit_check(data@, accounts@)->Err_0),
            tok_lgc_deposit_check(data@, accounts@) is Ok ==> r is Ok && r->Ok_0.parsed_from(data@, accounts@),
    {
        Self::check_fixed_accounts(accounts)?;
        rent_exempt_mint(&accounts[2], &accounts[6])?;
        check_mint0a(&accounts[2], &accounts[3])?;
        let m = accounts.len() - 7;
        let txn_len = m / 2;
        if txn_len > 8 || txn_len == 0 {
            return Err(ProgramError::from(Ee::TxnLenInvalid));
        }
        if m % 2 != 0 {
            return Err(ProgramError::from(Ee::TxnAcctsLength));
        }
        let mut i: usize = 0;
        while i < txn_len
            invariant
                m == accounts@.len() - 7,
                txn_len == m / 2,
                m % 2 == 0,
                1 <= txn_len <= 8,
                i <= txn_len,
                accounts@.len() == accounts.len(),
                tok_lgc_deposit_check(data@, accounts@) == and_then(
                    deposit_items_check(accounts@, txn_len as int, i as int),
                    deposit_data_check(data@, accounts@, txn_len as int),
                ),
            decreases txn_len - i,
        {
            writable(&accounts[7 + 2 * i])?;
            writable(&accounts[8 + 2 * i])?;
            check_pda(&accounts[7 + 2 * i])?;
            i = i + 1;
        }
        if data.len() == 0 {
            return Err(ProgramError::from(Ee::ByteSizeForU8));
        }
        let decimals = data[0];
        check_decimals(&accounts[2], decimals)?;
        let rest = slice_subrange(data, 1, data.len());
        if rest.len() % 8 != 0 {
            return Err(ProgramError::from(Ee::DataArgLenForU64));
        }
        let amounts = read_u64s(rest);
        if amounts.len() != txn_len {
            return Err(ProgramError::from(Ee::AmountsLenVsTxnAcctsLen));
        }
        let mut sum: u64 = 0;
        let mut k: usize = 0;
        while k < amounts.len()
            invariant
                amounts@ == deposit_amounts(data@),
                accounts@.len() == accounts.len(),
                accounts@.len() >= 7,
                tok_lgc_deposit_check(data@, accounts@) == spec_holds_total(accounts@[1], seq_sum(amounts@)),
                k <= amounts@.len(),
                sum == seq_sum(amounts@.take(k as int)),
            decreases amounts@.len() - k,
        {
            proof {
                assert(amounts@.take(k + 1).drop_last() =~= amounts@.take(k as int));
            }
            match sum.checked_add(amounts[k]) {
                Some(v) => sum = v,
                None => {
                    proof {
                        lemma_prefix_sum_le(amounts@, k + 1);
                        assert(amounts@.take(amounts@.len() as int) =~= amounts@);
                    }
                    ata_balc(&accounts[1], u64::MAX)?;
                    return Err(ProgramError::InsufficientFunds);
                },
            }
            k = k + 1;
        }
        assert(amounts@.take(amounts@.len() as int) =~= amounts@);
        ata_balc(&accounts[1], sum)?;
        Ok(TokLgcDeposit {
            user: 0,
            from_ata: 1,
            mint: 2,
            token_program: 3,
            system_program: 4,
            atoken_program: 5,
            rent_sysvar: 6,
            txn_accts: 7,
            txn_len,
            decimals,
            amounts,
        })
    }

    /// The parsed instruction names its accounts in their fixed positions, with
    /// one amount per deposit.
    pub open spec fn wf(&self, n_accounts: int) -> bool {
        &&& self.user == 0
        &&& self.from_ata == 1
        &&& self.mint == 2
        &&& self.token_program == 3
        &&& self.system_program == 4
        &&& self.atoken_program == 5
        &&& self.rent_sysvar == 6
        &&& self.txn_accts == 7
        &&& 7 + 2 * self.txn_len <= n_accounts
        &&& self.amounts@.len() == self.txn_len
    }

    /// Whether `a` is the transfer of deposit `i`, from the user's token account
    /// to the vault token account, authorized by the user.
    pub open spec fn transfers(&self, a: Action, i: int) -> bool {
        a == (Action::TransferChecked {
            from: self.from_ata,
            mint: self.mint,
            to: (8 + 2 * i) as usize,
            authority: self.user,
            amount: self.amounts@[i],
            decimals: self.decimals,
            signer: None,
        })
    }

    /// Whether `a` makes the token account of vault `i`.
    pub open spec fn creates_ata(&self, a: Action, i: int) -> bool {
        a == (Action::CreateAta {
            funding_account: self.user,
            account: (8 + 2 * i) as usize,
            wallet: (7 + 2 * i) as usize,
            mint: self.mint,
            system_program: self.system_program,
            token_program: self.token_program,
        })
    }

    /// The checks on deposit `i`, in order: the amount must not be zero
    /// (`ZeroU64`); a vault token account that holds data must be the vault's
    /// for the mint and hold its rent-exempt minimum.
    pub open spec fn deposit_check(&self, accounts: Seq<AccountView>, i: int) -> ProgramResult {
        let vault = accounts[7 + 2 * i];
        let vault_ata = accounts[8 + 2 * i];
        and_then(
            fail_if(self.amounts@[i] == 0, Ee::ZeroU64),
            if vault_ata.data@.len() == 0 {
                pass()
            } else {
                and_then(
                    spec_check_ata(vault_ata, vault, accounts[2]),
                    spec_rent_exempt(vault_ata, accounts[6], TOKEN_ACCOUNT_LEN as int, Ee::NoRentExemptTokAcct),
                )
            },
        )
    }

    /// Whether deposit `i` reads the rent: its vault token account holds data and
    /// is the vault's token account for the mint.
    pub open spec fn deposit_reads_rent(&self, accounts: Seq<AccountView>, i: int) -> bool {
        &&& accounts[8 + 2 * i].data@.len() != 0
        &&& spec_check_ata(accounts[8 + 2 * i], accounts[7 + 2 * i], accounts[2]) is Ok
    }

    /// Whether deposit `i` reads the rent (see `deposit_reads_rent`).
    pub fn reads_rent(&self, accounts: &[AccountView], i: usize) -> (r: bool)
        requires
            self.wf(accounts@.len() as int),
            i < self.txn_len,
        ensures
            r == self.deposit_reads_rent(accounts@, i as int),
    {
        assert(accounts@.len() == accounts.len());
        let vault_ata = &accounts[8 + 2 * i];
        !vault_ata.is_data_empty() && check_ata(vault_ata, &accounts[7 + 2 * i], &accounts[self.mint]).is_ok()
    }

    /// Whether `acts` are the calls of deposit `i`: the making of the vault
    /// token account where it holds no data, then the transfer.
    pub open spec fn deposit_actions(&self, accounts: Seq<AccountView>, i: int, acts: Seq<Action>) -> bool {
        if accounts[8 + 2 * i].data@.len() == 0 {
            acts.len() == 2 && self.creates_ata(acts[0], i) && self.transfers(acts[1], i)
        } else {
            acts.len() == 1 && self.transfers(acts[0], i)
        }
    }

    /// Step `i` of processing, deposit `i`: the amount must not be zero; a vault
    /// token account without data is made first, else it is checked; then the
    /// tokens move.
    pub fn process(&self, accounts: &[AccountView], i: usize) -> (r: Result<Vec<Action>, ProgramError>)
        requires
            self.wf(accounts@.len() as int),
            i < self.txn_len,
            self.deposit_reads_rent(accounts@, i as int) ==> rent_rate_in_range(accounts@[6]),
        ensures
            self.deposit_check(accounts@, i as int) is Err
                ==> r == Err::<Vec<Action>, ProgramError>(self.deposit_check(accounts@, i as int)->Err_0),
            self.deposit_check(accounts@, i as int) is Ok
                ==> r is Ok && self.deposit_actions(accounts@, i as int, r->Ok_0@),
    {
        let amount = self.amounts[i];
        none_zero_u64(amount)?;
        assert(accounts@.len() == accounts.len());
        let vault = 7 + 2 * i;
        let vault_ata = 8 + 2 * i;
        let mut actions: Vec<Action> = Vec::new();
        if accounts[vault_ata].is_data_empty() {
            actions.push(Action::CreateAta {
                funding_account: self.user,
                account: vault_ata,
                wallet: vault,
                mint: self.mint,
                system_program: self.system_program,
                token_program: self.token_program,
            });
        } else {
            check_ata(&accounts[vault_ata], &accounts[vault], &accounts[self.mint])?;
            rent_exempt_tokacct(&accounts[vault_ata], &accounts[self.rent_sysvar])?;
        }
        actions.push(Action::TransferChecked {
            from: self.from_ata,
            mint: self.mint,
            to: vault_ata,
            authority: self.user,
            amount,
            decimals: self.decimals,
            signer: None,
        });
        Ok(actions)
    }
}

} // verus!

verus! {

/// Where a deposit stands.
#[derive(Clone, Copy, Debug, PartialEq, Eq, Structural)]
pub enum DepositPhase {
    /// Deposit `next` is made next.
    Deposit { next: usize },
    /// Every deposit is made.
    Done,
}

impl TokLgcDeposit {
    /// One step of a deposit from `phase`, with the accounts as they stand,
    /// giving `r`: from `Deposit { next: i }` with a deposit `i`, its checks and,
    /// when they pass, its calls and the phase `Deposit { next: i + 1 }`; after
    /// the last deposit, and from `Done`, `Done` and no call.
    pub open spec fn deposit_step(
        &self,
        phase: DepositPhase,
        accounts: Seq<AccountView>,
        r: Result<(DepositPhase, Vec<Action>), ProgramError>,
    ) -> bool {
        match phase {
            DepositPhase::Deposit { next: i } => if i < self.txn_len {
                let c = self.deposit_check(accounts, i as int);
                &&& c is Err ==> r is Err && r->Err_0 == c->Err_0
                &&& c is Ok ==> {
                    &&& r is Ok
                    &&& r->Ok_0.0 == (DepositPhase::Deposit { next: (i + 1) as usize })
                    &&& self.deposit_actions(accounts, i as int, r->Ok_0.1@)
                }
            } else {
                r is Ok && r->Ok_0.0 == DepositPhase::Done && r->Ok_0.1@.len() == 0
            },
            DepositPhase::Done => r is Ok && r->Ok_0.0 == DepositPhase::Done && r->Ok_0.1@.len() == 0,
        }
    }

    /// Runs one step of the deposit: the caller starts from
    /// `Deposit { next: 0 }`, performs the calls that each step gives, re-reads
    /// the accounts, and stops at the first error or at `Done`.
    pub fn next(&self, phase: DepositPhase, accounts: &[AccountView]) -> (r: Result<(DepositPhase, Vec<Action>), ProgramError>)
        requires
            self.wf(accounts@.len() as int),
            (phase matches DepositPhase::Deposit { next } && next < self.txn_len
                && self.deposit_reads_rent(accounts@, next as int)) ==> rent_rate_in_range(accounts@[6]),
        ensures
            self.deposit_step(phase, accounts@, r),
    {
        match phase {
            DepositPhase::Deposit { next } => {
                if next < self.txn_len {
                    let actions = self.process(accounts, next)?;
                    Ok((DepositPhase::Deposit { next: next + 1 }, actions))
                } else {
                    Ok((DepositPhase::Done, Vec::new()))
                }
            },
            DepositPhase::Done => Ok((DepositPhase::Done, Vec::new())),
        }
    }
}

/// The phase of a deposit of `n` items after `k` successful steps.
pub open spec fn deposit_phase_after(k: int, n: int) -> DepositPhase {
    if k <= n {
        DepositPhase::Deposit { next: k as usize }
    } else {
        DepositPhase::Done
    }
}

proof fn lemma_deposit_phases(
    dep: TokLgcDeposit,
    phases: Seq<DepositPhase>,
    acts: Seq<Vec<Action>>,
    accts: Seq<Seq<AccountView>>,
    m: int,
)
    requires
        0 <= m <= acts.len(),
        phases.len() == acts.len() + 1,
        accts.len() == acts.len(),
        phases[0] == (DepositPhase::Deposit { next: 0 }),
        forall|k: int| 0 <= k < acts.len() ==> #[trigger] dep.deposit_step(phases[k], accts[k],
            Ok::<(DepositPhase, Vec<Action>), ProgramError>((phases[k + 1], acts[k]))),
    ensures
        phases[m] == deposit_phase_after(m, dep.txn_len as int),
    decreases m,
{
    if m > 0 {
        lemma_deposit_phases(dep, phases, acts, accts, m - 1);
        let k = m - 1;
        assert(dep.deposit_step(phases[k], accts[k],
            Ok::<(DepositPhase, Vec<Action>), ProgramError>((phases[k + 1], acts[k]))));
    }
}

/// A deposit makes its calls in order, deposit by deposit: step `k` gives the
/// calls of deposit `k` (the making of its vault token account where that holds
/// no data, then its transfer); after the last deposit, none. Here step `k` went
/// from `phases[k]` to `phases[k + 1]` with the accounts `accts[k]` and gave the
/// calls `acts[k]`.
pub proof fn law_deposits_in_order(
    dep: TokLgcDeposit,
    phases: Seq<DepositPhase>,
    acts: Seq<Vec<Action>>,
    accts: Seq<Seq<AccountView>>,
)
    requires
        phases.len() == acts.len() + 1,
        accts.len() == acts.len(),
        phases[0] == (DepositPhase::Deposit { next: 0 }),
        forall|k: int| 0 <= k < acts.len() ==> #[trigger] dep.deposit_step(phases[k], accts[k],
            Ok::<(DepositPhase, Vec<Action>), ProgramError>((phases[k + 1], acts[k]))),
    ensures
        forall|k: int| #![trigger accts[k]] 0 <= k < acts.len() && k < dep.txn_len ==>
            dep.deposit_check(accts[k], k) is Ok,
        forall|k: int| #![trigger acts[k]] 0 <= k < acts.len() && k < dep.txn_len ==>
            dep.deposit_actions(accts[k], k, acts[k]@),
        forall|k: int| #![trigger acts[k]] dep.txn_len <= k < acts.len() ==> acts[k]@.len() == 0,
{
    let n = dep.txn_len as int;
    assert forall|k: int| 0 <= k < acts.len() implies phases[k] == deposit_phase_after(k, n) by {
        lemma_deposit_phases(dep, phases, acts, accts, k);
    }
    assert forall|k: int| #![trigger accts[k]] 0 <= k < acts.len() && k < n implies
        (dep.deposit_check(accts[k], k) is Ok && dep.deposit_actions(accts[k], k, acts[k]@)) by {
        assert(phases[k] == deposit_phase_after(k, n));
        assert(dep.deposit_step(phases[k], accts[k],
            Ok::<(DepositPhase, Vec<Action>), ProgramError>((phases[k + 1], acts[k]))));
    }
    assert forall|k: int| #![trigger acts[k]] n <= k < acts.len() implies acts[k]@.len() == 0 by {
        assert(phases[k] == deposit_phase_after(k, n));
        assert(dep.deposit_step(phases[k], accts[k],
            Ok::<(DepositPhase, Vec<Action>), ProgramError>((phases[k + 1], acts[k]))));
    }
}

} // verus!

verus! {

proof fn lemma_items_never_txn_len(accounts: Seq<AccountView>, n: int, i: int)
    ensures
        deposit_items_check(accounts, n, i) != Err::<(), ProgramError>(custom(Ee::TxnLenInvalid)),
    decreases n - i,
{
    if i < n {
        lemma_items_never_txn_len(accounts, n, i + 1);
    }
}

/// The number of deposits decides `TxnLenInvalid` alone: once the fixed
/// accounts, the mint's rent exemption and the mint pass, a deposit naming `n`
/// (vault, vault token account) pairs fails with `TxnLenInvalid` exactly when
/// `n` is zero or above eight; every number from one to eight is taken, and a
/// parse that succeeds names whole pairs, one to eight of them.
pub proof fn law_deposit_count(data: Seq<u8>, accounts: Seq<AccountView>)
    ensures
        ({
            let n = (accounts.len() - 7) / 2;
            deposit_fixed_check(accounts) is Ok
                && spec_rent_exempt(accounts[2], accounts[6], MINT_LEN as int, Ee::NoRentExemptMint) is Ok
                && spec_check_mint0a(accounts[2], accounts[3]) is Ok
                ==> (tok_lgc_deposit_check(data, accounts) == Err::<(), ProgramError>(custom(Ee::TxnLenInvalid))
                    <==> n == 0 || n > 8)
        }),
        tok_lgc_deposit_check(data, accounts) is Ok ==> {
            &&& accounts.len() >= 7
            &&& (accounts.len() - 7) % 2 == 0
            &&& 1 <= (accounts.len() - 7) / 2 <= 8
        },
{
    let n = (accounts.len() - 7) / 2;
    lemma_items_never_txn_len(accounts, n, 0);
}

/// Deposit `i` moves its amount, by the user (account 0), of the mint (account
/// 2), from the user's token account (account 1) to the token account of vault
/// `i` (account `8 + 2 * i`), the account that the deposit checks, or makes
/// first for vault `i` (account `7 + 2 * i`) where it holds no data. So
/// distinct deposits go to distinct token accounts.
pub proof fn law_deposit_goes_to_its_vault(dep: TokLgcDeposit, accounts: Seq<AccountView>, i: int, acts: Seq<Action>)
    requires
        accounts.len() <= usize::MAX,
        dep.wf(accounts.len() as int),
        0 <= i < dep.txn_len,
        dep.deposit_actions(accounts, i, acts),
    ensures
        acts.len() == (if accounts[8 + 2 * i].data@.len() == 0 { 2int } else { 1int }),
        acts.last() matches Action::TransferChecked { from, mint, to, authority, amount, decimals, signer }
            && from == 1 && mint == 2 && to == 8 + 2 * i && authority == 0 && amount == dep.amounts@[i]
            && decimals == dep.decimals && signer is None,
        acts.len() == 2 ==> (acts[0] matches Action::CreateAta { funding_account, account, wallet, mint, system_program, token_program }
            && funding_account == 0 && account == 8 + 2 * i && wallet == 7 + 2 * i && mint == 2
            && system_program == 4 && token_program == 3),
{
}

} // verus!

verus! {

/// Deposit data written as the decimals byte, then each amount little-endian,
/// reads back as those decimals and amounts, one per deposit.
pub proof fn law_deposit_data_read_back(decimals: u8, amounts: Seq<u64>)
    ensures
        ({
            let data = seq![decimals] + u64s_le_bytes(amounts);
            &&& data[0] == decimals
            &&& (data.len() - 1) % 8 == 0
            &&& deposit_amounts(data) == amounts
        }),
{
    law_u64s_read_back(amounts);
    let data = seq![decimals] + u64s_le_bytes(amounts);
    assert(data.subrange(1, data.len() as int) =~= u64s_le_bytes(amounts));
}

} // verus!

verus! {

/// A deposit is parsed only when the user's token account holds at least the
/// sum of its amounts, counted exactly.
pub proof fn law_deposit_covered_by_user(data: Seq<u8>, accounts: Seq<AccountView>)
    requires
        tok_lgc_deposit_check(data, accounts) is Ok,
    ensures
        token_amount(accounts[1].data@) >= seq_sum(deposit_amounts(data)),
{
}

} // verus!
