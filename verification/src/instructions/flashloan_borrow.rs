use vstd::prelude::*;
use vstd::bytes::{lemma_auto_spec_u16_to_from_le_bytes, spec_u16_to_le_bytes, u16_to_le_bytes};
use vstd::slice::slice_subrange;
use crate::account::AccountView;
use crate::address::{address_eq, Address, ID, INSTRUCTIONS_ID, PROG_ADDR, RENT_ID, SYSTEM_PROGRAM_ID};
use crate::cpi::{Action, PdaSeeds};
use crate::error::{Ee, ProgramError, ProgramResult};
use crate::instructions::flashloan_repay::FlashloanRepay;
use crate::parse::{custom, law_u64s_read_back, le_u16_at, le_u64s, read_u16_at, read_u64s, u64s_le_bytes};
use crate::state::{loan_bytes, Loan, Loans, Vault};
use crate::utils::{
    amount_from_token_acct, and_then, check_ata, check_instruction_sysvar, check_pda,
    check_rent_sysvar, check_signer, check_sysprog, executable, fail, fail_if, minimum_balance,
    pass, spec_amount_from_token_acct, spec_check_address, spec_check_ata, spec_check_pda,
    spec_check_signer, spec_rent_minimum, token_amount, token_mint, token_owner, writable,
};

verus! {

/// FlashloanBorrow: lends tokens from vaults to the signer within one
/// transaction whose last instruction must repay them.
///
/// Accounts: signer, loans account, mint, token program, system program, rent
/// sysvar, instructions sysvar, then per loan a vault, its token account and the
/// debtor's token account. Data: the mint's decimals, the loans account's bump,
/// the vault's bump, the vault's fee (little-endian `u16`, in hundredths of a
/// percent), then one little-endian `u64` amount per loan.
pub struct FlashloanBorrow {
    pub signer: usize,
    pub loans_pda: usize,
    pub mint: usize,
    pub instruction_sysvar: usize,
    pub system_program: usize,
    pub rent_sysvar: usize,
    /// The position of the first vault; each loan names three accounts.
    pub txn_accts: usize,
    pub decimals: u8,
    pub loans_bump_a: [u8; 1],
    pub vault_bump_a: [u8; 1],
    pub fee: u16,
    pub amounts: Vec<u64>,
}

/// The last instruction of the transaction, as the instructions sysvar holds
/// it: the program it calls, its data, and the addresses of its accounts.
pub struct RepayIx {
    pub program_id: Address,
    pub data: Vec<u8>,
    pub accounts: Vec<Address>,
}

/// The checks on loan `i`: its vault is writable and one of this program's
/// accounts, the vault token account is the vault's for the mint, and the debtor
/// token account is the signer's for the mint.
pub open spec fn borrow_item_check(accounts: Seq<AccountView>, i: int) -> ProgramResult {
    let vault = accounts[7 + 3 * i];
    and_then(fail_if(!vault.is_writable, Ee::NotWritable),
    and_then(spec_check_pda(vault),
    and_then(spec_check_ata(accounts[8 + 3 * i], vault, accounts[2]),
    spec_check_ata(accounts[9 + 3 * i], accounts[0], accounts[2]))))
}

/// The checks on loans `i..n`, in order.
pub open spec fn borrow_items_check(accounts: Seq<AccountView>, n: int, i: int) -> ProgramResult
    decreases n - i,
{
    if i < n {
        and_then(borrow_item_check(accounts, i), borrow_items_check(accounts, n, i + 1))
    } else {
        pass()
    }
}

/// The amounts that borrow data holds after its five leading bytes.
pub open spec fn borrow_amounts(data: Seq<u8>) -> Seq<u64> {
    le_u64s(data.subrange(5, data.len() as int))
}

/// The checks of the data part, then those of each loan.
pub open spec fn borrow_data_check(data: Seq<u8>, accounts: Seq<AccountView>, n: int) -> ProgramResult {
    if data.len() < 3 {
        Err(custom(Ee::ByteSizeForU8))
    } else if data.len() < 5 {
        Err(custom(Ee::ByteSizeForU16))
    } else {
        and_then(fail_if((data.len() - 5) % 8 != 0, Ee::DataArgLenForU64),
        and_then(fail_if(borrow_amounts(data).len() != n, Ee::AmountsLenVsTxnAcctsLen),
        borrow_items_check(accounts, n, 0)))
    }
}

/// The checks of FlashloanBorrow on its data and accounts, in order.
pub open spec fn flashloan_borrow_check(data: Seq<u8>, accounts: Seq<AccountView>) -> ProgramResult {
    let m = accounts.len() - 7;
    if accounts.len() < 7 {
        Err(ProgramError::NotEnoughAccountKeys)
    } else {
        and_then(spec_check_signer(accounts[0]),
        and_then(fail_if(!accounts[1].is_writable, Ee::NotWritable),
        and_then(fail_if(!accounts[3].executable, Ee::NotExecutable),
        and_then(spec_check_address(accounts[4], SYSTEM_PROGRAM_ID, Ee::SystemProgram),
        and_then(spec_check_address(accounts[5], RENT_ID, Ee::RentSysvar),
        and_then(spec_check_address(accounts[6], INSTRUCTIONS_ID, Ee::InstructionSysvar),
        and_then(fail_if(m % 3 != 0 || m == 0, Ee::TxnAcctsLength),
        and_then(fail_if(accounts[1].data@.len() != 0, Ee::LoansPdaHasData),
        borrow_data_check(data, accounts, m / 3)))))))))
    }
}

/// The balance that a vault token account holding `balc` must hold again after
/// lending `amount` at `fee` hundredths of a percent: `balc + amount * fee / 10000`,
/// failing with `MultDivNone` when `amount * fee` overflows and `AddToOverflow`
/// when the sum does.
pub open spec fn spec_balc_plus_fee(balc: u64, amount: u64, fee: u16) -> Result<u64, ProgramError> {
    if amount * fee > u64::MAX {
        Err(custom(Ee::MultDivNone))
    } else if balc + amount * fee / 10000 > u64::MAX {
        Err(custom(Ee::AddToOverflow))
    } else {
        Ok((balc + amount * fee / 10000) as u64)
    }
}

/// The balance plus fee of a loan of `amount` from a vault token account holding
/// `balc`, with the checks around it.
pub fn balc_plus_fee(balc: u64, amount: u64, fee: u16) -> (r: Result<u64, ProgramError>)
    ensures
        r == spec_balc_plus_fee(balc, amount, fee),
        r matches Ok(v) ==> balc <= v,
{
    let prod = match amount.checked_mul(fee as u64) {
        Some(p) => p,
        None => return Err(ProgramError::from(Ee::MultDivNone)),
    };
    let part = prod / 10_000;
    let sum = match balc.checked_add(part) {
        Some(s) => s,
        None => return Err(ProgramError::from(Ee::AddToOverflow)),
    };
    Ok(sum)
}

/// Whether the account at position `k` of the repay instruction has `addr`.
pub open spec fn names_at(keys: Seq<Address>, k: int, addr: Address) -> bool {
    k < keys.len() && keys[k]@ == addr@
}

impl FlashloanBorrow {
    pub const DISCRIMINATOR: u8 = 3;

    /// What a parse of `data` and `accounts` gives when every check passes.
    pub open spec fn parsed_from(&self, data: Seq<u8>, accounts: Seq<AccountView>) -> bool {
        &&& self.wf(accounts.len() as int)
        &&& self.decimals == data[0]
        &&& self.loans_bump_a@ == seq![data[1]]
        &&& self.vault_bump_a@ == seq![data[2]]
        &&& self.fee == le_u16_at(data, 3)
        &&& self.amounts@ == borrow_amounts(data)
    }

    /// The parsed instruction names its accounts in their fixed positions, with
    /// three accounts per amount.
    pub open spec fn wf(&self, n_accounts: int) -> bool {
        &&& self.signer == 0
        &&& self.loans_pda == 1
        &&& self.mint == 2
        &&& self.system_program == 4
        &&& self.rent_sysvar == 5
        &&& self.instruction_sysvar == 6
        &&& self.txn_accts == 7
        &&& n_accounts == 7 + 3 * self.amounts@.len()
        &&& self.amounts@.len() > 0
    }

    /// Parses the instruction from its data and accounts. The checks run in the
    /// order that `flashloan_borrow_check` gives; the first that fails decides the error.
    pub fn try_from(data: &[u8], accounts: &[AccountView]) -> (r: Result<FlashloanBorrow, ProgramError>)
        ensures
            flashloan_borrow_check(data@, accounts@) is Err
                ==> r == Err::<FlashloanBorrow, ProgramError>(flashloan_borrow_check(data@, accounts@)->Err_0),
            flashloan_borrow_check(data@, accounts@) is Ok ==> r is Ok && r->Ok_0.parsed_from(data@, accounts@),
    {
        if accounts.len() < 7 {
            return Err(ProgramError::NotEnoughAccountKeys);
        }
        check_signer(&accounts[0])?;
        writable(&accounts[1])?;
        executable(&accounts[3])?;
        check_sysprog(&accounts[4])?;
        check_rent_sysvar(&accounts[5])?;
        check_instruction_sysvar(&accounts[6])?;
        let m = accounts.len() - 7;
        if m % 3 != 0 || m == 0 {
            return Err(ProgramError::from(Ee::TxnAcctsLength));
        }
        if accounts[1].data.len() != 0 {
            return Err(ProgramError::from(Ee::LoansPdaHasData));
        }
        if data.len() < 3 {
            return Err(ProgramError::from(Ee::ByteSizeForU8));
        }
        let decimals = data[0];
        let loans_bump = data[1];
        let vault_bump = data[2];
        if data.len() < 5 {
            return Err(ProgramError::from(Ee::ByteSizeForU16));
        }
        let fee = read_u16_at(data, 3);
        let rest = slice_subrange(data, 5, data.len());
        if rest.len() % 8 != 0 {
            return Err(ProgramError::from(Ee::DataArgLenForU64));
        }
        let amounts = read_u64s(rest);
        let n = m / 3;
        if amounts.len() != n {
            return Err(ProgramError::from(Ee::AmountsLenVsTxnAcctsLen));
        }
        let mut i: usize = 0;
        while i < n
            invariant
                m == accounts@.len() - 7,
                accounts@.len() == accounts.len(),
                n == m / 3,
                m % 3 == 0,
                i <= n,
                flashloan_borrow_check(data@, accounts@) == borrow_items_check(accounts@, n as int, i as int),
            decreases n - i,
        {
            let vault = &accounts[7 + 3 * i];
            writable(vault)?;
            check_pda(vault)?;
            check_ata(&accounts[8 + 3 * i], vault, &accounts[2])?;
            check_ata(&accounts[9 + 3 * i], &accounts[0], &accounts[2])?;
            i = i + 1;
        }
        let loans_bump_a: [u8; 1] = [loans_bump];
        let vault_bump_a: [u8; 1] = [vault_bump];
        assert(loans_bump_a@ =~= seq![data@[1]]);
        assert(vault_bump_a@ =~= seq![data@[2]]);
        Ok(FlashloanBorrow {
            signer: 0,
            loans_pda: 1,
            mint: 2,
            instruction_sysvar: 6,
            system_program: 4,
            rent_sysvar: 5,
            txn_accts: 7,
            decimals,
            loans_bump_a,
            vault_bump_a,
            fee,
            amounts,
        })
    }

    /// The transaction must hold at least two instructions (`NumOfInstructions`).
    pub fn check_num_instructions(num_instructions: usize) -> (r: ProgramResult)
        ensures
            r == fail_if(num_instructions < 2, Ee::NumOfInstructions),
    {
        if num_instructions < 2 {
            return Ee::NumOfInstructions.e();
        }
        Ok(())
    }

    /// The checks on loan `i` of the repay instruction: a non-zero amount
    /// (`BorrowedAmountIsZero`), and the loan's vault, vault token account and
    /// debtor token account named in that order.
    pub open spec fn repay_item_check(&self, accounts: Seq<AccountView>, keys: Seq<Address>, i: int) -> ProgramResult {
        and_then(fail_if(self.amounts@[i] == 0, Ee::BorrowedAmountIsZero),
        and_then(fail_if(!names_at(keys, 3 * i + 2, accounts[7 + 3 * i].address), Ee::RepayIxVaultPda),
        and_then(fail_if(!names_at(keys, 3 * i + 3, accounts[8 + 3 * i].address), Ee::RepayIxVaultAta),
        fail_if(!names_at(keys, 3 * i + 4, accounts[9 + 3 * i].address), Ee::RepayIxDebtorAta))))
    }

    /// The checks on loans `i..` of the repay instruction, in order.
    pub open spec fn repay_items_check(&self, accounts: Seq<AccountView>, keys: Seq<Address>, i: int) -> ProgramResult
        decreases self.amounts@.len() - i,
    {
        if 0 <= i < self.amounts@.len() {
            and_then(self.repay_item_check(accounts, keys, i), self.repay_items_check(accounts, keys, i + 1))
        } else {
            pass()
        }
    }

    /// The repay instruction must call this program (`RepayProgId`) with the
    /// FlashloanRepay discriminator (`RepayDiscriminator`), name the signer
    /// (`RepayIxSigner`) and the loans account (`RepayIxLoansPda`) first, then
    /// each loan's accounts.
    pub open spec fn repay_ix_check(&self, accounts: Seq<AccountView>, repay: RepayIx) -> ProgramResult {
        and_then(fail_if(repay.program_id@ != ID@, Ee::RepayProgId),
        and_then(fail_if(repay.data@.len() == 0 || repay.data@[0] != FlashloanRepay::DISCRIMINATOR, Ee::RepayDiscriminator),
        and_then(fail_if(!names_at(repay.accounts@, 0, accounts[0].address), Ee::RepayIxSigner),
        and_then(fail_if(!names_at(repay.accounts@, 1, accounts[1].address), Ee::RepayIxLoansPda),
        self.repay_items_check(accounts, repay.accounts@, 0)))))
    }

    /// Checks the last instruction of the transaction, which must repay the loans.
    pub fn check_repay_ix(&self, accounts: &[AccountView], repay: &RepayIx) -> (r: ProgramResult)
        requires
            self.wf(accounts@.len() as int),
        ensures
            r == self.repay_ix_check(accounts@, *repay),
    {
        if !address_eq(&repay.program_id, &ID) {
            return Ee::RepayProgId.e();
        }
        if repay.data.len() == 0 || repay.data[0] != FlashloanRepay::DISCRIMINATOR {
            return Ee::RepayDiscriminator.e();
        }
        let keys = &repay.accounts;
        if keys.len() <= 0 || !address_eq(&keys[0], &accounts[0].address) {
            return Ee::RepayIxSigner.e();
        }
        if keys.len() <= 1 || !address_eq(&keys[1], &accounts[1].address) {
            return Ee::RepayIxLoansPda.e();
        }
        let n = self.amounts.len();
        let mut i: usize = 0;
        while i < n
            invariant
                self.wf(accounts@.len() as int),
                accounts@.len() == accounts.len(),
                n == self.amounts@.len(),
                i <= n,
                self.repay_ix_check(accounts@, *repay) == self.repay_items_check(accounts@, keys@, i as int),
                *keys == repay.accounts,
            decreases n - i,
        {
            if self.amounts[i] == 0 {
                return Ee::BorrowedAmountIsZero.e();
            }
            let k = 3 * i + 2;
            if keys.len() <= k || !address_eq(&keys[k], &accounts[7 + 3 * i].address) {
                return Ee::RepayIxVaultPda.e();
            }
            if keys.len() <= k + 1 || !address_eq(&keys[k + 1], &accounts[8 + 3 * i].address) {
                return Ee::RepayIxVaultAta.e();
            }
            if keys.len() <= k + 2 || !address_eq(&keys[k + 2], &accounts[9 + 3 * i].address) {
                return Ee::RepayIxDebtorAta.e();
            }
            i = i + 1;
        }
        Ok(())
    }
}

impl FlashloanBorrow {
    /// Whether `a` creates the loans account, owned by this program, with room for
    /// one record per loan and `lamports`, signed with the seeds `b"loans"`, the
    /// signer's address and the loans bump.
    pub open spec fn creates_loans(&self, a: Action, accounts: Seq<AccountView>, lamports: u64) -> bool {
        match a {
            Action::CreateAccount { from, to, lamports: l, space, owner, signer } => {
                &&& from == self.signer
                &&& to == self.loans_pda
                &&& l == lamports
                &&& space == Loan::LEN * self.amounts@.len()
                &&& owner@ == PROG_ADDR@
                &&& signer.prefix@ == Loans::SEED@
                &&& signer.key@ == accounts[0].address@
                &&& signer.bump == self.loans_bump_a@[0]
            },
            _ => false,
        }
    }

    /// The `CreateAccount` of the loans account, with the rent-exempt minimum for
    /// its size read from the rent sysvar.
    pub fn create_loans(&self, accounts: &[AccountView]) -> (r: Result<Action, ProgramError>)
        requires
            self.wf(accounts@.len() as int),
            Loan::LEN * self.amounts@.len() <= usize::MAX,
        ensures
            ({
                let min = spec_rent_minimum(accounts@[5], Loan::LEN * self.amounts@.len());
                &&& min is Err ==> r == Err::<Action, ProgramError>(min->Err_0)
                &&& min is Ok ==> r is Ok && self.creates_loans(r->Ok_0, accounts@, min->Ok_0)
            }),
    {
        let loans_size = Loan::LEN * self.amounts.len();
        let lamports = minimum_balance(&accounts[self.rent_sysvar], loans_size)?;
        let mut key: Vec<u8> = Vec::new();
        key.extend_from_slice(accounts[self.signer].address.as_slice());
        assert(key@ =~= accounts@[0].address@);
        Ok(Action::CreateAccount {
            from: self.signer,
            to: self.loans_pda,
            lamports,
            space: loans_size as u64,
            owner: PROG_ADDR,
            signer: PdaSeeds { prefix: Loans::SEED, key, bump: self.loans_bump_a[0] },
        })
    }

    /// Whether `a` moves `amount` tokens from the token account of vault `i` to
    /// the debtor's, authorized by the vault, signed with the seeds `b"vault"`, the
    /// fee (little-endian) and the vault bump.
    pub open spec fn lends(&self, a: Action, i: int) -> bool {
        match a {
            Action::TransferChecked { from, mint, to, authority, amount, decimals, signer } => {
                &&& from == 8 + 3 * i
                &&& mint == self.mint
                &&& to == 9 + 3 * i
                &&& authority == 7 + 3 * i
                &&& amount == self.amounts@[i]
                &&& decimals == self.decimals
                &&& signer matches Some(seeds) && {
                    &&& seeds.prefix@ == Vault::SEED@
                    &&& seeds.key@ == spec_u16_to_le_bytes(self.fee)
                    &&& seeds.bump == self.vault_bump_a@[0]
                }
            },
            _ => false,
        }
    }

    /// The loan that loan `i` records, or why it is refused: the vault token
    /// account's balance must not be zero (`VaultAtaBalcZero`) nor below the
    /// amount (`BorrowAmountTooBig`).
    pub open spec fn spec_loan(&self, accounts: Seq<AccountView>, i: int) -> Result<Loan, ProgramError> {
        let vault_ata = accounts[8 + 3 * i];
        match spec_amount_from_token_acct(vault_ata) {
            Err(e) => Err(e),
            Ok(balc) => if balc == 0 {
                Err(custom(Ee::VaultAtaBalcZero))
            } else if self.amounts@[i] > balc {
                Err(custom(Ee::BorrowAmountTooBig))
            } else {
                match spec_balc_plus_fee(balc, self.amounts@[i], self.fee) {
                    Err(e) => Err(e),
                    Ok(v) => Ok(Loan { vault_ata: vault_ata.address, balc_plus_fee: v }),
                }
            },
        }
    }

    /// Step `i` of processing (the caller runs the steps in order, re-reading the
    /// accounts, and performs the transfers), once the loans account exists with room for every
    /// loan: records loan `i` in the loans data and gives the transfer of its tokens.
    pub fn process(&self, accounts: &[AccountView], i: usize, loans_data: &mut Vec<u8>) -> (r: Result<Action, ProgramError>)
        requires
            self.wf(accounts@.len() as int),
            i < self.amounts@.len(),
            old(loans_data)@.len() == Loan::LEN * self.amounts@.len(),
        ensures
            final(loans_data)@.len() == old(loans_data)@.len(),
            self.spec_loan(accounts@, i as int) is Err ==> {
                &&& r == Err::<Action, ProgramError>(self.spec_loan(accounts@, i as int)->Err_0)
                &&& final(loans_data)@ == old(loans_data)@
            },
            self.spec_loan(accounts@, i as int) is Ok ==> {
                &&& r is Ok && self.lends(r->Ok_0, i as int)
                &&& lending_step(old(loans_data)@, final(loans_data)@, i as int, self.spec_loan(accounts@, i as int)->Ok_0)
            },
    {
        assert(accounts@.len() == accounts.len());
        let vault = 7 + 3 * i;
        let vault_ata = 8 + 3 * i;
        let debtor_ata = 9 + 3 * i;
        let amount = self.amounts[i];
        let vault_ata_balc = amount_from_token_acct(&accounts[vault_ata])?;
        if vault_ata_balc == 0 {
            return Err(ProgramError::from(Ee::VaultAtaBalcZero));
        }
        if amount > vault_ata_balc {
            return Err(ProgramError::from(Ee::BorrowAmountTooBig));
        }
        let balc_plus_fee = balc_plus_fee(vault_ata_balc, amount, self.fee)?;
        let loan = Loan { vault_ata: accounts[vault_ata].address, balc_plus_fee };
        loan.write_to(loans_data, i);
        let fee_bytes = u16_to_le_bytes(self.fee);
        Ok(Action::TransferChecked {
            from: vault_ata,
            mint: self.mint,
            to: debtor_ata,
            authority: vault,
            amount,
            decimals: self.decimals,
            signer: Some(PdaSeeds { prefix: Vault::SEED, key: fee_bytes, bump: self.vault_bump_a[0] }),
        })
    }
}

} // verus!

verus! {

/// Step `k` of lending took the loans data from `before` to `after`: record `k`
/// now holds the bytes of `loan`, and every other byte is as it was.
pub open spec fn lending_step(before: Seq<u8>, after: Seq<u8>, k: int, loan: Loan) -> bool {
    &&& after.len() == before.len()
    &&& after.subrange(Loan::LEN * k, Loan::LEN * k + Loan::LEN) == loan_bytes(loan)
    &&& forall|j: int|
        0 <= j < before.len() && !(Loan::LEN * k <= j < Loan::LEN * k + Loan::LEN)
            ==> #[trigger] after[j] == before[j]
}

proof fn lemma_steps_keep_records(borrow: FlashloanBorrow, accounts: Seq<AccountView>, datas: Seq<Seq<u8>>, m: int)
    requires
        0 <= m <= borrow.amounts@.len(),
        datas.len() == borrow.amounts@.len() + 1,
        datas[0].len() == Loan::LEN * borrow.amounts@.len(),
        forall|k: int| 0 <= k < borrow.amounts@.len() ==>
            #[trigger] lending_step(datas[k], datas[k + 1], k, borrow.spec_loan(accounts, k)->Ok_0),
    ensures
        datas[m].len() == Loan::LEN * borrow.amounts@.len(),
        forall|i: int| 0 <= i < m ==>
            #[trigger] datas[m].subrange(Loan::LEN * i, Loan::LEN * i + Loan::LEN)
                == loan_bytes(borrow.spec_loan(accounts, i)->Ok_0),
    decreases m,
{
    if m > 0 {
        lemma_steps_keep_records(borrow, accounts, datas, m - 1);
        let k = m - 1;
        assert(lending_step(datas[k], datas[k + 1], k, borrow.spec_loan(accounts, k)->Ok_0));
        assert forall|i: int| 0 <= i < m implies
            #[trigger] datas[m].subrange(Loan::LEN * i, Loan::LEN * i + Loan::LEN)
                == loan_bytes(borrow.spec_loan(accounts, i)->Ok_0) by {
            if i < k {
                assert(datas[m].subrange(Loan::LEN * i, Loan::LEN * i + Loan::LEN)
                    =~= datas[k].subrange(Loan::LEN * i, Loan::LEN * i + Loan::LEN));
            }
        }
    }
}

/// Once every lending step has run, the loans account records every loan of the
/// borrow, each in its place.
pub proof fn law_borrow_records_every_loan(borrow: FlashloanBorrow, accounts: Seq<AccountView>, datas: Seq<Seq<u8>>)
    requires
        datas.len() == borrow.amounts@.len() + 1,
        datas[0].len() == Loan::LEN * borrow.amounts@.len(),
        forall|k: int| 0 <= k < borrow.amounts@.len() ==>
            #[trigger] lending_step(datas[k], datas[k + 1], k, borrow.spec_loan(accounts, k)->Ok_0),
    ensures
        datas.last().len() == Loan::LEN * borrow.amounts@.len(),
        forall|i: int| 0 <= i < borrow.amounts@.len() ==>
            #[trigger] datas.last().subrange(Loan::LEN * i, Loan::LEN * i + Loan::LEN)
                == loan_bytes(borrow.spec_loan(accounts, i)->Ok_0),
{
    lemma_steps_keep_records(borrow, accounts, datas, borrow.amounts@.len() as int);
}

} // verus!

verus! {

/// Where a borrow stands.
#[derive(Clone, Copy, Debug, PartialEq, Eq, Structural)]
pub enum BorrowPhase {
    /// Nothing is done yet: the transaction's instructions are checked next.
    Start,
    /// The loans account is being made; loan `next` is lent next.
    Lend { next: usize },
    /// Every loan is lent.
    Done,
}

/// What the instructions sysvar tells the borrow: the number of instructions in
/// the transaction and, when there are at least two, the last of them.
pub struct Introspection {
    pub num_instructions: usize,
    pub last: Option<RepayIx>,
}

impl FlashloanBorrow {
    /// The checks on the transaction's instructions, in order: at least two
    /// (`NumOfInstructions`, also when the last one is not at hand), the last of
    /// them repaying the loans.
    pub open spec fn introspection_check(&self, accounts: Seq<AccountView>, intro: Introspection) -> ProgramResult {
        match intro.last {
            Some(ix) => and_then(
                fail_if(intro.num_instructions < 2, Ee::NumOfInstructions),
                self.repay_ix_check(accounts, ix),
            ),
            None => fail(Ee::NumOfInstructions),
        }
    }

    /// One step of a borrow from `phase`, with the accounts as they stand, taking
    /// the loans data from `d0` to `d1` and giving `r`:
    /// - from `Start`: the instruction checks, then the rent for the loans
    ///   account; when they pass, the `CreateAccount` of the loans account and
    ///   the phase `Lend { next: 0 }`;
    /// - from `Lend { next: i }` with a loan `i`: its record and the transfer of
    ///   its tokens, and the phase `Lend { next: i + 1 }`;
    /// - after the last loan, and from `Done`: `Done` and no call.
    /// A failing step changes no loans data and makes no call.
    pub open spec fn borrow_step(
        &self,
        phase: BorrowPhase,
        accounts: Seq<AccountView>,
        intro: Introspection,
        d0: Seq<u8>,
        d1: Seq<u8>,
        r: Result<(BorrowPhase, Option<Action>), ProgramError>,
    ) -> bool {
        let n = self.amounts@.len();
        match phase {
            BorrowPhase::Start => {
                let checks = self.introspection_check(accounts, intro);
                let min = spec_rent_minimum(accounts[5], Loan::LEN * n);
                &&& d1 == d0
                &&& checks is Err ==> r == Err::<(BorrowPhase, Option<Action>), ProgramError>(checks->Err_0)
                &&& checks is Ok && min is Err ==> r == Err::<(BorrowPhase, Option<Action>), ProgramError>(min->Err_0)
                &&& checks is Ok && min is Ok ==> {
                    &&& r is Ok
                    &&& r->Ok_0.0 == (BorrowPhase::Lend { next: 0 })
                    &&& r->Ok_0.1 is Some
                    &&& self.creates_loans(r->Ok_0.1->Some_0, accounts, min->Ok_0)
                }
            },
            BorrowPhase::Lend { next: i } => if i < n {
                let loan = self.spec_loan(accounts, i as int);
                &&& loan is Err ==> r == Err::<(BorrowPhase, Option<Action>), ProgramError>(loan->Err_0) && d1 == d0
                &&& loan is Ok ==> {
                    &&& r is Ok
                    &&& r->Ok_0.0 == (BorrowPhase::Lend { next: (i + 1) as usize })
                    &&& r->Ok_0.1 is Some
                    &&& self.lends(r->Ok_0.1->Some_0, i as int)
                    &&& lending_step(d0, d1, i as int, loan->Ok_0)
                }
            } else {
                r == Ok::<(BorrowPhase, Option<Action>), ProgramError>((BorrowPhase::Done, None)) && d1 == d0
            },
            BorrowPhase::Done => r == Ok::<(BorrowPhase, Option<Action>), ProgramError>((BorrowPhase::Done, None))
                && d1 == d0,
        }
    }

    /// Runs one step of the borrow: the caller starts from `Start`, performs the
    /// call that each step gives, re-reads the accounts and the loans data, and
    /// stops at the first error or at `Done`.
    pub fn next(&self, phase: BorrowPhase, accounts: &[AccountView], intro: &Introspection, loans_data: &mut Vec<u8>)
        -> (r: Result<(BorrowPhase, Option<Action>), ProgramError>)
        requires
            self.wf(accounts@.len() as int),
            Loan::LEN * self.amounts@.len() <= usize::MAX,
            phase matches BorrowPhase::Lend { next } ==> next <= self.amounts@.len()
                && old(loans_data)@.len() == Loan::LEN * self.amounts@.len(),
        ensures
            self.borrow_step(phase, accounts@, *intro, old(loans_data)@, final(loans_data)@, r),
    {
        match phase {
            BorrowPhase::Start => {
                Self::check_num_instructions(intro.num_instructions)?;
                match &intro.last {
                    Some(ix) => self.check_repay_ix(accounts, ix)?,
                    None => return Err(ProgramError::from(Ee::NumOfInstructions)),
                }
                let create = self.create_loans(accounts)?;
                Ok((BorrowPhase::Lend { next: 0 }, Some(create)))
            },
            BorrowPhase::Lend { next } => {
                if next < self.amounts.len() {
                    let transfer = self.process(accounts, next, loans_data)?;
                    Ok((BorrowPhase::Lend { next: next + 1 }, Some(transfer)))
                } else {
                    Ok((BorrowPhase::Done, None))
                }
            },
            BorrowPhase::Done => Ok((BorrowPhase::Done, None)),
        }
    }
}

/// The phase of a borrow of `n` loans after `k` successful steps.
pub open spec fn borrow_phase_after(k: int, n: int) -> BorrowPhase {
    if k == 0 {
        BorrowPhase::Start
    } else if k <= n + 1 {
        BorrowPhase::Lend { next: (k - 1) as usize }
    } else {
        BorrowPhase::Done
    }
}

proof fn lemma_borrow_phases(
    borrow: FlashloanBorrow,
    phases: Seq<BorrowPhase>,
    acts: Seq<Option<Action>>,
    accts: Seq<Seq<AccountView>>,
    intros: Seq<Introspection>,
    ins: Seq<Seq<u8>>,
    outs: Seq<Seq<u8>>,
    m: int,
)
    requires
        borrow.amounts@.len() <= usize::MAX,
        0 <= m <= acts.len(),
        phases.len() == acts.len() + 1,
        accts.len() == acts.len(),
        intros.len() == acts.len(),
        ins.len() == acts.len(),
        outs.len() == acts.len(),
        phases[0] == BorrowPhase::Start,
        forall|k: int| 0 <= k < acts.len() ==> #[trigger] borrow.borrow_step(phases[k], accts[k], intros[k], ins[k], outs[k],
            Ok::<(BorrowPhase, Option<Action>), ProgramError>((phases[k + 1], acts[k]))),
    ensures
        phases[m] == borrow_phase_after(m, borrow.amounts@.len() as int),
    decreases m,
{
    if m > 0 {
        lemma_borrow_phases(borrow, phases, acts, accts, intros, ins, outs, m - 1);
        let k = m - 1;
        assert(borrow.borrow_step(phases[k], accts[k], intros[k], ins[k], outs[k],
            Ok::<(BorrowPhase, Option<Action>), ProgramError>((phases[k + 1], acts[k]))));
        let n = borrow.amounts@.len() as int;
        if k == 0 {
            assert(phases[k] == BorrowPhase::Start);
        } else if k <= n + 1 {
            assert(phases[k] == BorrowPhase::Lend { next: (k - 1) as usize });
            if k - 1 < n {
                assert(phases[m] == BorrowPhase::Lend { next: k as usize });
            } else {
                assert(phases[m] == BorrowPhase::Done);
            }
        } else {
            assert(phases[k] == BorrowPhase::Done);
        }
    }
}

/// A borrow makes its calls in one order and no others: once the transaction's
/// instructions have passed their checks, the `CreateAccount` of the loans
/// account; then the transfer of each loan, loan by loan; then none. A first
/// step that succeeds means that the instruction checks passed. Here step `k`
/// went from `phases[k]` to `phases[k + 1]` and gave `acts[k]`, with the
/// accounts `accts[k]`, the instructions `intros[k]` and the loans data going
/// from `ins[k]` to `outs[k]`.
pub proof fn law_borrow_calls_in_order(
    borrow: FlashloanBorrow,
    phases: Seq<BorrowPhase>,
    acts: Seq<Option<Action>>,
    accts: Seq<Seq<AccountView>>,
    intros: Seq<Introspection>,
    ins: Seq<Seq<u8>>,
    outs: Seq<Seq<u8>>,
)
    requires
        borrow.amounts@.len() <= usize::MAX,
        phases.len() == acts.len() + 1,
        accts.len() == acts.len(),
        intros.len() == acts.len(),
        ins.len() == acts.len(),
        outs.len() == acts.len(),
        phases[0] == BorrowPhase::Start,
        forall|k: int| 0 <= k < acts.len() ==> #[trigger] borrow.borrow_step(phases[k], accts[k], intros[k], ins[k], outs[k],
            Ok::<(BorrowPhase, Option<Action>), ProgramError>((phases[k + 1], acts[k]))),
    ensures
        acts.len() > 0 ==> {
            &&& borrow.introspection_check(accts[0], intros[0]) is Ok
            &&& acts[0] is Some
            &&& borrow.creates_loans(acts[0]->Some_0, accts[0],
                spec_rent_minimum(accts[0][5], Loan::LEN * borrow.amounts@.len())->Ok_0)
        },
        forall|k: int| 1 <= k <= borrow.amounts@.len() && k < acts.len() ==>
            #[trigger] acts[k] is Some && borrow.lends(acts[k]->Some_0, k - 1),
        forall|k: int| borrow.amounts@.len() < k < acts.len() ==> #[trigger] acts[k] is None,
{
    let n = borrow.amounts@.len() as int;
    assert forall|k: int| 0 <= k < acts.len() implies phases[k] == borrow_phase_after(k, n) by {
        lemma_borrow_phases(borrow, phases, acts, accts, intros, ins, outs, k);
    }
    if acts.len() > 0 {
        assert(borrow.borrow_step(phases[0], accts[0], intros[0], ins[0], outs[0],
            Ok::<(BorrowPhase, Option<Action>), ProgramError>((phases[1], acts[0]))));
    }
    assert forall|k: int| 1 <= k <= n && k < acts.len() implies
        #[trigger] acts[k] is Some && borrow.lends(acts[k]->Some_0, k - 1) by {
        assert(phases[k] == borrow_phase_after(k, n));
        assert(borrow.borrow_step(phases[k], accts[k], intros[k], ins[k], outs[k],
            Ok::<(BorrowPhase, Option<Action>), ProgramError>((phases[k + 1], acts[k]))));
    }
    assert forall|k: int| n < k < acts.len() implies #[trigger] acts[k] is None by {
        assert(phases[k] == borrow_phase_after(k, n));
        assert(borrow.borrow_step(phases[k], accts[k], intros[k], ins[k], outs[k],
            Ok::<(BorrowPhase, Option<Action>), ProgramError>((phases[k + 1], acts[k]))));
    }
}

} // verus!

verus! {

/// Loan `i` is repaid by the instruction with keys `keys`: its amount is not
/// zero, and the keys at `3 * i + 2`, `3 * i + 3` and `3 * i + 4` are the
/// addresses of its vault, vault token account and debtor token account.
spec fn loan_repaid_by(borrow: FlashloanBorrow, accounts: Seq<AccountView>, keys: Seq<Address>, i: int) -> bool {
    &&& borrow.amounts@[i] != 0
    &&& 3 * i + 4 < keys.len()
    &&& keys[3 * i + 2]@ == accounts[7 + 3 * i].address@
    &&& keys[3 * i + 3]@ == accounts[8 + 3 * i].address@
    &&& keys[3 * i + 4]@ == accounts[9 + 3 * i].address@
}

proof fn lemma_repay_items_ok(borrow: FlashloanBorrow, accounts: Seq<AccountView>, keys: Seq<Address>, i: int)
    requires
        0 <= i <= borrow.amounts@.len(),
    ensures
        borrow.repay_items_check(accounts, keys, i) is Ok
            <==> forall|j: int| i <= j < borrow.amounts@.len() ==> #[trigger] loan_repaid_by(borrow, accounts, keys, j),
    decreases borrow.amounts@.len() - i,
{
    if i < borrow.amounts@.len() {
        lemma_repay_items_ok(borrow, accounts, keys, i + 1);
        if borrow.repay_items_check(accounts, keys, i) is Ok {
            assert forall|j: int| i <= j < borrow.amounts@.len() implies #[trigger] loan_repaid_by(borrow, accounts, keys, j) by {
                if j == i {
                    assert(borrow.repay_item_check(accounts, keys, i) is Ok);
                }
            }
        }
        if forall|j: int| i <= j < borrow.amounts@.len() ==> #[trigger] loan_repaid_by(borrow, accounts, keys, j) {
            assert(loan_repaid_by(borrow, accounts, keys, i));
            assert forall|j: int| i + 1 <= j < borrow.amounts@.len() implies #[trigger] loan_repaid_by(borrow, accounts, keys, j) by {
                assert(i <= j);
            }
        }
    }
}

proof fn lemma_repay_items_first_debtor_miss(
    borrow: FlashloanBorrow,
    accounts: Seq<AccountView>,
    keys: Seq<Address>,
    i: int,
    m: int,
)
    requires
        0 <= i <= m < borrow.amounts@.len(),
        forall|j: int| i <= j < m ==> #[trigger] loan_repaid_by(borrow, accounts, keys, j),
        borrow.amounts@[m] != 0,
        3 * m + 3 < keys.len(),
        keys[3 * m + 2]@ == accounts[7 + 3 * m].address@,
        keys[3 * m + 3]@ == accounts[8 + 3 * m].address@,
        !(3 * m + 4 < keys.len() && keys[3 * m + 4]@ == accounts[9 + 3 * m].address@),
    ensures
        borrow.repay_items_check(accounts, keys, i) == Err::<(), ProgramError>(custom(Ee::RepayIxDebtorAta)),
    decreases m - i,
{
    if i < m {
        assert(loan_repaid_by(borrow, accounts, keys, i));
        lemma_repay_items_first_debtor_miss(borrow, accounts, keys, i + 1, m);
    }
}

/// The last instruction is accepted as the repay of a borrow exactly when it
/// calls this program with the FlashloanRepay discriminator and names, in
/// order, the signer, the loans account and, for every loan `i`, the loan's
/// vault, vault token account and debtor token account (accounts `7 + 3 * i`,
/// `8 + 3 * i` and `9 + 3 * i`) at keys `3 * i + 2`, `3 * i + 3` and
/// `3 * i + 4`, every amount being non-zero.
pub proof fn law_repay_ix_names_every_loan(borrow: FlashloanBorrow, accounts: Seq<AccountView>, repay: RepayIx)
    requires
        borrow.wf(accounts.len() as int),
    ensures
        borrow.repay_ix_check(accounts, repay) is Ok <==> {
            let keys = repay.accounts@;
            let n = borrow.amounts@.len();
            &&& repay.program_id@ == ID@
            &&& repay.data@.len() > 0 && repay.data@[0] == 4
            &&& keys.len() >= 3 * n + 2
            &&& keys[0]@ == accounts[0].address@
            &&& keys[1]@ == accounts[1].address@
            &&& forall|i: int| 0 <= i < n ==> {
                &&& #[trigger] borrow.amounts@[i] != 0
                &&& keys[3 * i + 2]@ == accounts[7 + 3 * i].address@
                &&& keys[3 * i + 3]@ == accounts[8 + 3 * i].address@
                &&& keys[3 * i + 4]@ == accounts[9 + 3 * i].address@
            }
        },
{
    let keys = repay.accounts@;
    let n = borrow.amounts@.len() as int;
    assert(FlashloanRepay::DISCRIMINATOR == 4);
    lemma_repay_items_ok(borrow, accounts, keys, 0);
    let prefix = repay.program_id@ == ID@ && repay.data@.len() > 0 && repay.data@[0] == 4
        && 1 < keys.len() && keys[0]@ == accounts[0].address@ && keys[1]@ == accounts[1].address@;
    let items = forall|j: int| 0 <= j < n ==> #[trigger] loan_repaid_by(borrow, accounts, keys, j);
    assert(borrow.repay_ix_check(accounts, repay) is Ok <==> prefix && items);
    let named = keys.len() >= 3 * n + 2 && forall|i: int| 0 <= i < n ==> {
        &&& #[trigger] borrow.amounts@[i] != 0
        &&& keys[3 * i + 2]@ == accounts[7 + 3 * i].address@
        &&& keys[3 * i + 3]@ == accounts[8 + 3 * i].address@
        &&& keys[3 * i + 4]@ == accounts[9 + 3 * i].address@
    };
    if items {
        assert(loan_repaid_by(borrow, accounts, keys, n - 1));
        assert(keys.len() >= 3 * n + 2);
        assert forall|i: int| 0 <= i < n implies {
            &&& #[trigger] borrow.amounts@[i] != 0
            &&& keys[3 * i + 2]@ == accounts[7 + 3 * i].address@
            &&& keys[3 * i + 3]@ == accounts[8 + 3 * i].address@
            &&& keys[3 * i + 4]@ == accounts[9 + 3 * i].address@
        } by {
            assert(loan_repaid_by(borrow, accounts, keys, i));
        }
        assert(named);
    }
    if named {
        assert forall|j: int| 0 <= j < n implies #[trigger] loan_repaid_by(borrow, accounts, keys, j) by {
        }
        assert(items);
    }
}

/// Once the program, discriminator, signer and loans account of the last
/// instruction are right and the loans before loan `m` are named, a loan `m`
/// whose amount, vault and vault token account are right but whose debtor
/// token account (account `9 + 3 * m`) is not the key at `3 * m + 4` makes the
/// check fail with `RepayIxDebtorAta`.
pub proof fn law_repay_ix_wrong_debtor(borrow: FlashloanBorrow, accounts: Seq<AccountView>, repay: RepayIx, m: int)
    requires
        borrow.wf(accounts.len() as int),
        0 <= m < borrow.amounts@.len(),
        repay.program_id@ == ID@,
        repay.data@.len() > 0 && repay.data@[0] == 4,
        repay.accounts@.len() > 3 * m + 3,
        repay.accounts@[0]@ == accounts[0].address@,
        repay.accounts@[1]@ == accounts[1].address@,
        forall|i: int| 0 <= i < m ==> {
            &&& #[trigger] borrow.amounts@[i] != 0
            &&& repay.accounts@[3 * i + 2]@ == accounts[7 + 3 * i].address@
            &&& repay.accounts@[3 * i + 3]@ == accounts[8 + 3 * i].address@
            &&& repay.accounts@[3 * i + 4]@ == accounts[9 + 3 * i].address@
        },
        borrow.amounts@[m] != 0,
        repay.accounts@[3 * m + 2]@ == accounts[7 + 3 * m].address@,
        repay.accounts@[3 * m + 3]@ == accounts[8 + 3 * m].address@,
        !(3 * m + 4 < repay.accounts@.len() && repay.accounts@[3 * m + 4]@ == accounts[9 + 3 * m].address@),
    ensures
        borrow.repay_ix_check(accounts, repay) == Err::<(), ProgramError>(custom(Ee::RepayIxDebtorAta)),
{
    let keys = repay.accounts@;
    assert forall|j: int| 0 <= j < m implies #[trigger] loan_repaid_by(borrow, accounts, keys, j) by {
    }
    lemma_repay_items_first_debtor_miss(borrow, accounts, keys, 0, m);
}

} // verus!

verus! {

proof fn lemma_borrow_item_passed(accounts: Seq<AccountView>, n: int, k: int, i: int)
    requires
        0 <= k <= i < n,
        borrow_items_check(accounts, n, k) is Ok,
    ensures
        borrow_item_check(accounts, i) is Ok,
    decreases i - k,
{
    if k < i {
        lemma_borrow_item_passed(accounts, n, k + 1, i);
    }
}

/// A loan moves its amount, under the authority of its vault (an account of
/// this program), from a token account that the vault owns to a token account
/// that the signer owns, both of the borrowed mint: for every borrow that was
/// parsed, and every loan `i` of it, these are loan `i`'s own accounts
/// (`7 + 3 * i`, `8 + 3 * i`, `9 + 3 * i`), the ones its record and the repay
/// instruction name.
pub proof fn law_loan_moves_vault_tokens_to_signer(
    borrow: FlashloanBorrow,
    data: Seq<u8>,
    accounts: Seq<AccountView>,
    i: int,
    a: Action,
)
    requires
        accounts.len() <= usize::MAX,
        flashloan_borrow_check(data, accounts) is Ok,
        borrow.parsed_from(data, accounts),
        0 <= i < borrow.amounts@.len(),
        borrow.lends(a, i),
    ensures
        a matches Action::TransferChecked { from, mint, to, authority, amount, decimals, signer } && {
            &&& token_owner(accounts[from as int].data@) == accounts[authority as int].address@
            &&& token_mint(accounts[from as int].data@) == accounts[mint as int].address@
            &&& accounts[authority as int].owner@ == PROG_ADDR@
            &&& token_owner(accounts[to as int].data@) == accounts[0].address@
            &&& token_mint(accounts[to as int].data@) == accounts[mint as int].address@
            &&& mint == 2
            &&& authority == 7 + 3 * i && from == 8 + 3 * i && to == 9 + 3 * i
            &&& amount == borrow.amounts@[i]
            &&& decimals == data[0]
            &&& signer is Some
        },
{
    let n = borrow.amounts@.len() as int;
    assert((accounts.len() - 7) / 3 == n);
    lemma_borrow_item_passed(accounts, n, 0, i);
}

/// The loans account is made by the signer, at the loans account's position,
/// owned by this program, with room for exactly one record per loan, and
/// signed for with the seeds `b"loans"`, the signer's address and the loans bump.
pub proof fn law_loans_account_holds_every_loan(
    borrow: FlashloanBorrow,
    accounts: Seq<AccountView>,
    a: Action,
    lamports: u64,
)
    requires
        borrow.wf(accounts.len() as int),
        borrow.creates_loans(a, accounts, lamports),
    ensures
        a matches Action::CreateAccount { from, to, lamports: l, space, owner, signer } && {
            &&& from == 0 && to == 1
            &&& l == lamports
            &&& space == 40 * borrow.amounts@.len()
            &&& space / 40 == borrow.amounts@.len()
            &&& owner@ == PROG_ADDR@
            &&& signer.prefix@ == seq![108u8, 111u8, 97u8, 110u8, 115u8]
            &&& signer.key@ == accounts[0].address@
            &&& signer.bump == borrow.loans_bump_a@[0]
        },
{
    assert(Loans::SEED@ =~= seq![108u8, 111u8, 97u8, 110u8, 115u8]);
}

/// The fee is counted in basis points of the amount, rounded down: a loan that
/// is accepted must bring its vault token account back to its balance plus
/// `amount * fee / 10000`; no fee adds nothing, a fee of 10000 adds the whole
/// amount, and the loan is refused only where that product or sum leaves `u64`.
pub proof fn law_fee_in_basis_points(balc: u64, amount: u64, fee: u16)
    ensures
        spec_balc_plus_fee(balc, amount, fee) matches Ok(v) ==> v == balc + (amount * fee) / 10000,
        fee == 0 ==> spec_balc_plus_fee(balc, amount, fee) == Ok::<u64, ProgramError>(balc),
        fee == 10000 && amount * 10000 <= u64::MAX && balc + amount <= u64::MAX
            ==> spec_balc_plus_fee(balc, amount, fee) == Ok::<u64, ProgramError>((balc + amount) as u64),
        amount * fee <= u64::MAX && balc + (amount * fee) / 10000 <= u64::MAX
            ==> spec_balc_plus_fee(balc, amount, fee) is Ok,
{
    if fee == 10000 {
        assert(amount * 10000 / 10000 == amount) by (nonlinear_arith);
    }
}

} // verus!

verus! {

/// Borrow data written as the decimals, the loans bump, the vault bump, the fee
/// (little-endian) and then each amount (little-endian) reads back as those
/// values, one amount per loan.
pub proof fn law_borrow_data_read_back(decimals: u8, loans_bump: u8, vault_bump: u8, fee: u16, amounts: Seq<u64>)
    ensures
        ({
            let data = seq![decimals, loans_bump, vault_bump] + spec_u16_to_le_bytes(fee) + u64s_le_bytes(amounts);
            &&& data[0] == decimals
            &&& data[1] == loans_bump
            &&& data[2] == vault_bump
            &&& le_u16_at(data, 3) == fee
            &&& (data.len() - 5) % 8 == 0
            &&& borrow_amounts(data) == amounts
        }),
{
    lemma_auto_spec_u16_to_from_le_bytes();
    law_u64s_read_back(amounts);
    let data = seq![decimals, loans_bump, vault_bump] + spec_u16_to_le_bytes(fee) + u64s_le_bytes(amounts);
    assert(data.subrange(3, 5) =~= spec_u16_to_le_bytes(fee));
    assert(data.subrange(5, data.len() as int) =~= u64s_le_bytes(amounts));
}

} // verus!

verus! {

/// A loan is recorded only from a vault token account that holds tokens and at
/// least the amount lent; the record names that token account and the balance
/// it must hold again: its balance before the loan plus
/// `amount * fee / 10000`.
pub proof fn law_loan_record(borrow: FlashloanBorrow, accounts: Seq<AccountView>, i: int)
    requires
        borrow.spec_loan(accounts, i) is Ok,
    ensures
        ({
            let ata = accounts[8 + 3 * i];
            let balc = token_amount(ata.data@);
            let loan = borrow.spec_loan(accounts, i)->Ok_0;
            &&& balc > 0
            &&& borrow.amounts@[i] <= balc
            &&& loan.vault_ata == ata.address
            &&& loan.balc_plus_fee == balc + (borrow.amounts@[i] * borrow.fee) / 10000
        }),
{
}

} // verus!
