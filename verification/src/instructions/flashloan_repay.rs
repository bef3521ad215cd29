use vstd::prelude::*;
use crate::account::{slice_is_address, AccountView};
use crate::error::{Ee, ProgramError, ProgramResult};
use crate::address::TOKEN_PROGRAM_ID;
use crate::instructions::flashloan_borrow::FlashloanBorrow;
use crate::state::{lemma_record_reads_loan, loan_bytes, recorded_balc_plus_fee, recorded_vault_ata, Loan};
use crate::utils::{
    amount_from_token_acct, and_then, token_amount, TOKEN_ACCOUNT_LEN, check_signer, close_pda, fail_if, pass,
    spec_amount_from_token_acct, spec_check_signer, spec_close_pda, writable,
};

verus! {

/// FlashloanRepay: checks that every vault token account holds again the
/// balance plus fee that the borrow recorded, then closes the loans account into
/// the signer. The tokens themselves are returned by earlier instructions.
///
/// Accounts: signer, loans account, then per loan a vault, its token account and
/// the debtor's token account.
pub struct FlashloanRepay {
    pub signer: usize,
    pub loans_pda: usize,
    /// The position of the first vault; each loan names three accounts.
    pub txn_accts: usize,
}

/// The checks of FlashloanRepay on its accounts, in order.
pub open spec fn flashloan_repay_check(accounts: Seq<AccountView>) -> ProgramResult {
    if accounts.len() < 2 {
        Err(ProgramError::NotEnoughAccountKeys)
    } else {
        and_then(spec_check_signer(accounts[0]), fail_if(!accounts[1].is_writable, Ee::NotWritable))
    }
}

/// The check on recorded loan `i`: the token account named for it is the one
/// recorded (`RepayVaultAta`), and it holds at least the recorded balance plus
/// fee (`RepayVaultBalcNotExpected`).
pub open spec fn repay_loan_check(accounts: Seq<AccountView>, loans: Seq<u8>, i: int) -> ProgramResult {
    let vault_ata = accounts[3 + 3 * i];
    and_then(
        fail_if(recorded_vault_ata(loans, i) != vault_ata.address@, Ee::RepayVaultAta),
        match spec_amount_from_token_acct(vault_ata) {
            Err(e) => Err(e),
            Ok(balc) => fail_if(balc < recorded_balc_plus_fee(loans, i), Ee::RepayVaultBalcNotExpected),
        },
    )
}

/// The checks on recorded loans `i..n`, in order.
pub open spec fn repay_loans_check(accounts: Seq<AccountView>, loans: Seq<u8>, n: int, i: int) -> ProgramResult
    decreases n - i,
{
    if 0 <= i < n {
        and_then(repay_loan_check(accounts, loans, i), repay_loans_check(accounts, loans, n, i + 1))
    } else {
        pass()
    }
}

/// The number of loans that loans data records.
pub open spec fn loan_count(loans: Seq<u8>) -> int {
    loans.len() as int / 40
}

/// The checks of processing a repay: as many recorded loans as named account
/// groups (`RepayTxnAcctsLen`), then each recorded loan.
pub open spec fn repay_process_check(accounts: Seq<AccountView>) -> ProgramResult {
    let loans = accounts[1].data@;
    and_then(
        fail_if(loan_count(loans) != (accounts.len() - 2) / 3, Ee::RepayTxnAcctsLen),
        repay_loans_check(accounts, loans, loan_count(loans), 0),
    )
}

impl FlashloanRepay {
    pub const DISCRIMINATOR: u8 = 4;

    /// The parsed instruction names its accounts in their fixed positions.
    pub open spec fn wf(&self) -> bool {
        &&& self.signer == 0
        &&& self.loans_pda == 1
        &&& self.txn_accts == 2
    }

    /// Parses the instruction from its data and accounts. The checks run in the
    /// order that `flashloan_repay_check` gives; the first that fails decides the error.
    pub fn try_from(data: &[u8], accounts: &[AccountView]) -> (r: Result<FlashloanRepay, ProgramError>)
        ensures
            flashloan_repay_check(accounts@) is Err
                ==> r == Err::<FlashloanRepay, ProgramError>(flashloan_repay_check(accounts@)->Err_0),
            flashloan_repay_check(accounts@) is Ok ==> r is Ok && r->Ok_0.wf(),
    {
        if accounts.len() < 2 {
            return Err(ProgramError::NotEnoughAccountKeys);
        }
        check_signer(&accounts[0])?;
        writable(&accounts[1])?;
        Ok(FlashloanRepay { signer: 0, loans_pda: 1, txn_accts: 2 })
    }

    /// Checks the recorded loans, then closes the loans account into the signer.
    /// When a check fails, nothing changes.
    pub fn process(&self, accounts: &mut Vec<AccountView>) -> (r: ProgramResult)
        requires
            self.wf(),
            old(accounts)@.len() >= 2,
            old(accounts)@[1].data@.len() == 0 ==> (old(accounts)@.len() - 2) / 3 != 0,
        ensures
            final(accounts)@.len() == old(accounts)@.len(),
            repay_process_check(old(accounts)@) is Err ==> {
                &&& r == repay_process_check(old(accounts)@)
                &&& final(accounts)@ == old(accounts)@
            },
            repay_process_check(old(accounts)@) is Ok ==> {
                &&& spec_close_pda(old(accounts)@[1], old(accounts)@[0], final(accounts)@[1], final(accounts)@[0], r)
                &&& forall|k: int| 2 <= k < old(accounts)@.len() ==> #[trigger] final(accounts)@[k] == old(accounts)@[k]
            },
    {
        let ghost a0 = accounts@;
        let loan_num = accounts[1].data.len() / 40;
        if loan_num != (accounts.len() - 2) / 3 {
            return Ee::RepayTxnAcctsLen.e();
        }
        let mut i: usize = 0;
        while i < loan_num
            invariant
                accounts@ == a0,
                accounts@.len() == accounts.len(),
                accounts@.len() >= 2,
                loan_num == loan_count(a0[1].data@),
                loan_num == (a0.len() - 2) / 3,
                i <= loan_num,
                repay_process_check(a0) == repay_loans_check(a0, a0[1].data@, loan_num as int, i as int),
            decreases loan_num - i,
        {
            let vault_ata = &accounts[3 + 3 * i];
            let loans_data = accounts[1].data.as_slice();
            let data_len = loans_data.len();
            assert(40 * i + 40 <= data_len);
            if !slice_is_address(loans_data, 40 * i, &vault_ata.address) {
                return Ee::RepayVaultAta.e();
            }
            let vault_balc = amount_from_token_acct(vault_ata)?;
            let loan = Loan::read_from(loans_data, i);
            if vault_balc < loan.balc_plus_fee {
                return Ee::RepayVaultBalcNotExpected.e();
            }
            i = i + 1;
        }
        let mut signer = accounts.remove(0);
        let mut loans_pda = accounts.remove(0);
        let res = close_pda(&mut loans_pda, &mut signer);
        accounts.insert(0, loans_pda);
        accounts.insert(0, signer);
        assert forall|k: int| 2 <= k < a0.len() implies #[trigger] accounts@[k] == a0[k] by {}
        res
    }
}

} // verus!

verus! {

/// The token account named for loan `i` at repay is an SPL Token account.
pub open spec fn repay_ata_is_token_account(accounts: Seq<AccountView>, i: int) -> bool {
    &&& accounts[3 + 3 * i].owner@ == TOKEN_PROGRAM_ID@
    &&& accounts[3 + 3 * i].data@.len() == TOKEN_ACCOUNT_LEN
}

/// Loan `i` is repaid: the token account named for it is the recorded one and
/// holds at least the recorded balance plus fee.
pub open spec fn loan_repaid(accounts: Seq<AccountView>, loans: Seq<u8>, i: int) -> bool {
    &&& recorded_vault_ata(loans, i) == accounts[3 + 3 * i].address@
    &&& token_amount(accounts[3 + 3 * i].data@) >= recorded_balc_plus_fee(loans, i)
}

proof fn lemma_repay_loans_iff(accounts: Seq<AccountView>, loans: Seq<u8>, n: int, i: int)
    requires
        0 <= i <= n,
        forall|j: int| 0 <= j < n ==> #[trigger] repay_ata_is_token_account(accounts, j),
    ensures
        repay_loans_check(accounts, loans, n, i) is Ok
            <==> forall|j: int| i <= j < n ==> #[trigger] loan_repaid(accounts, loans, j),
    decreases n - i,
{
    if i < n {
        lemma_repay_loans_iff(accounts, loans, n, i + 1);
        assert(repay_ata_is_token_account(accounts, i));
        if repay_loans_check(accounts, loans, n, i) is Ok {
            assert forall|j: int| i <= j < n implies #[trigger] loan_repaid(accounts, loans, j) by {
                if j > i {
                    assert(i + 1 <= j < n);
                }
            }
        }
        if forall|j: int| i <= j < n ==> #[trigger] loan_repaid(accounts, loans, j) {
            assert(loan_repaid(accounts, loans, i));
            assert forall|j: int| i + 1 <= j < n implies #[trigger] loan_repaid(accounts, loans, j) by {
                assert(i <= j);
            }
        }
    }
}

/// A repay goes through exactly when every loan recorded in the loans account is
/// repaid: the token account named for it, in order, is the recorded one and
/// holds at least the recorded balance plus fee (the accounts named for the loans
/// being token accounts, as many groups as records).
pub proof fn law_repay_accepts_iff_repaid(accounts: Seq<AccountView>)
    requires
        accounts.len() >= 2,
        loan_count(accounts[1].data@) == (accounts.len() - 2) / 3,
        forall|j: int| 0 <= j < loan_count(accounts[1].data@) ==> #[trigger] repay_ata_is_token_account(accounts, j),
    ensures
        repay_process_check(accounts) is Ok <==> forall|j: int|
            0 <= j < loan_count(accounts[1].data@) ==> #[trigger] loan_repaid(accounts, accounts[1].data@, j),
{
    lemma_repay_loans_iff(accounts, accounts[1].data@, loan_count(accounts[1].data@), 0);
}

/// A repay after a borrow goes through exactly when each vault token account,
/// named again in order, holds at least what it held before lending plus the fee
/// on the amount lent: `amount * fee / 10000`. Here the loans account holds the
/// records that the borrow's lending steps wrote.
pub proof fn law_repay_after_borrow(borrow: FlashloanBorrow, before: Seq<AccountView>, after: Seq<AccountView>)
    requires
        borrow.wf(before.len() as int),
        forall|i: int| 0 <= i < borrow.amounts@.len() ==> #[trigger] borrow.spec_loan(before, i) is Ok,
        after.len() == before.len() - 5,
        after[1].data@.len() == Loan::LEN * borrow.amounts@.len(),
        forall|i: int| 0 <= i < borrow.amounts@.len() ==>
            #[trigger] after[1].data@.subrange(Loan::LEN * i, Loan::LEN * i + Loan::LEN)
                == loan_bytes(borrow.spec_loan(before, i)->Ok_0),
        forall|i: int| 0 <= i < borrow.amounts@.len() ==> #[trigger] after[3 + 3 * i].address == before[8 + 3 * i].address,
        forall|i: int| 0 <= i < borrow.amounts@.len() ==> #[trigger] repay_ata_is_token_account(after, i),
    ensures
        repay_process_check(after) is Ok <==> forall|i: int| 0 <= i < borrow.amounts@.len() ==>
            token_amount(after[3 + 3 * i].data@)
                >= token_amount(#[trigger] before[8 + 3 * i].data@) + borrow.amounts@[i] * borrow.fee / 10000,
{
    let n = borrow.amounts@.len() as int;
    let d = after[1].data@;
    assert(loan_count(d) == n);
    law_repay_accepts_iff_repaid(after);
    assert forall|i: int| 0 <= i < n implies
        #[trigger] loan_repaid(after, d, i) <==> token_amount(after[3 + 3 * i].data@)
            >= token_amount(before[8 + 3 * i].data@) + borrow.amounts@[i] * borrow.fee / 10000 by {
        let loan = borrow.spec_loan(before, i)->Ok_0;
        assert(borrow.spec_loan(before, i) is Ok);
        assert(d.subrange(Loan::LEN * i, Loan::LEN * i + Loan::LEN) == loan_bytes(loan));
        lemma_record_reads_loan(d, i, loan);
    }
    if repay_process_check(after) is Ok {
        assert forall|i: int| 0 <= i < n implies token_amount(after[3 + 3 * i].data@)
            >= token_amount(#[trigger] before[8 + 3 * i].data@) + borrow.amounts@[i] * borrow.fee / 10000 by {
            assert(loan_repaid(after, d, i));
        }
    } else {
        let j = choose|j: int| 0 <= j < n && !#[trigger] loan_repaid(after, d, j);
        assert(!(token_amount(after[3 + 3 * j].data@)
            >= token_amount(before[8 + 3 * j].data@) + borrow.amounts@[j] * borrow.fee / 10000));
    }
}

} // verus!
