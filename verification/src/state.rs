use vstd::prelude::*;
use vstd::bytes::{spec_u64_from_le_bytes, spec_u64_to_le_bytes, u64_from_le_bytes, u64_to_le_bytes, lemma_auto_spec_u64_to_from_le_bytes};
use crate::account::{address_at, bytes8_at, write_bytes_at, AccountView};
use crate::address::{address_eq, Address, PROG_ADDR};
use crate::error::{Ee, ProgramError, ProgramResult};
use crate::parse::le_u64_at;
use crate::utils::{fail, fail_if, pass};

verus! {

/// What a vault holds: its admin's address, its recorded token balance and its
/// bump seed.
pub struct VaultView {
    pub admin: Seq<u8>,
    pub token_balc: u64,
    pub bump: u8,
}

/// A lending vault, laid out as 32 bytes of admin address, 8 bytes of token
/// balance (little-endian) and one byte of bump seed.
#[derive(Clone, Copy, Debug)]
pub struct Vault {
    admin: Address,
    token_balc: [u8; 8],
    bump: u8,
}

impl View for Vault {
    type V = VaultView;

    closed spec fn view(&self) -> VaultView {
        VaultView {
            admin: self.admin@,
            token_balc: spec_u64_from_le_bytes(self.token_balc@),
            bump: self.bump,
        }
    }
}

/// The vault that vault account data holds.
pub open spec fn vault_from_bytes(data: Seq<u8>) -> VaultView {
    VaultView {
        admin: data.subrange(0, 32),
        token_balc: le_u64_at(data, 32),
        bump: data[40],
    }
}

/// The vault account data that holds `v`.
pub open spec fn vault_bytes(v: VaultView) -> Seq<u8> {
    v.admin + spec_u64_to_le_bytes(v.token_balc) + seq![v.bump]
}

/// Reading `pda` as a vault: it must hold exactly a vault's bytes
/// (`VaultDataLengh`) and belong to this program (`VaultIsForeign`).
pub open spec fn spec_vault_check(pda: AccountView) -> ProgramResult {
    if pda.data@.len() != Vault::LEN {
        fail(Ee::VaultDataLengh)
    } else if pda.owner@ != PROG_ADDR@ {
        fail(Ee::VaultIsForeign)
    } else {
        pass()
    }
}

impl Vault {
    pub const LEN: usize = 41;

    /// The seed prefix of vault addresses (`b"vault"`).
    pub const SEED: [u8; 5] = [118, 97, 117, 108, 116];

    /// The vault's admin.
    pub fn admin(&self) -> (r: &Address)
        ensures
            r@ == self@.admin,
    {
        &self.admin
    }

    /// The vault's recorded token balance.
    pub fn token_balc(&self) -> (r: u64)
        ensures
            r == self@.token_balc,
    {
        u64_from_le_bytes(self.token_balc.as_slice())
    }

    /// The vault's bump seed.
    pub fn bump(&self) -> (r: u8)
        ensures
            r == self@.bump,
    {
        self.bump
    }

    /// Sets the vault's admin.
    pub fn set_admin(&mut self, addr: &Address)
        ensures
            final(self)@ == (VaultView { admin: addr@, ..old(self)@ }),
    {
        self.admin = *addr;
    }

    /// Sets the vault's recorded token balance, which must not be zero.
    pub fn set_token_balc(&mut self, amt: u64) -> (r: ProgramResult)
        ensures
            r == fail_if(amt == 0, Ee::ZeroU64),
            amt == 0 ==> final(self)@ == old(self)@,
            amt != 0 ==> final(self)@ == (VaultView { token_balc: amt, ..old(self)@ }),
    {
        if amt == 0 {
            return Ee::ZeroU64.e();
        }
        let bytes = u64_to_le_bytes(amt);
        let arr = bytes8_at(bytes.as_slice(), 0);
        proof {
            lemma_auto_spec_u64_to_from_le_bytes();
            assert(arr@ =~= spec_u64_to_le_bytes(amt));
        }
        self.token_balc = arr;
        Ok(())
    }

    /// Sets the vault's bump seed, which must not be zero.
    pub fn set_bump(&mut self, bump: u8) -> (r: ProgramResult)
        ensures
            r == fail_if(bump == 0, Ee::ZeroU8),
            bump == 0 ==> final(self)@ == old(self)@,
            bump != 0 ==> final(self)@ == (VaultView { bump: bump, ..old(self)@ }),
    {
        if bump == 0 {
            return Ee::ZeroU8.e();
        }
        self.bump = bump;
        Ok(())
    }

    /// Checks that `pda` holds a vault of this program.
    pub fn check(pda: &AccountView) -> (r: ProgramResult)
        ensures
            r == spec_vault_check(*pda),
    {
        if pda.data.len() != Self::LEN {
            return Ee::VaultDataLengh.e();
        }
        if !address_eq(&pda.owner, &PROG_ADDR) {
            return Ee::VaultIsForeign.e();
        }
        Ok(())
    }

    /// The vault that `pda` holds, after the checks of `check`.
    pub fn from_account_view(pda: &AccountView) -> (r: Result<Vault, ProgramError>)
        ensures
            spec_vault_check(*pda) is Err ==> r == Err::<Vault, ProgramError>(spec_vault_check(*pda)->Err_0),
            spec_vault_check(*pda) is Ok ==> r is Ok && r->Ok_0@ == vault_from_bytes(pda.data@),
    {
        Self::check(pda)?;
        let data = pda.data.as_slice();
        let v = Vault { admin: address_at(data, 0), token_balc: bytes8_at(data, 32), bump: data[40] };
        assert(v@.admin == vault_from_bytes(pda.data@).admin);
        assert(v.token_balc@ == pda.data@.subrange(32, 40));
        Ok(v)
    }

    /// Writes this vault into the data of `pda`, which holds a vault's bytes.
    pub fn store(&self, pda: &mut AccountView)
        requires
            old(pda).data@.len() == Vault::LEN,
        ensures
            final(pda).data@ == vault_bytes(self@),
            final(pda).address == old(pda).address,
            final(pda).owner == old(pda).owner,
            final(pda).lamports == old(pda).lamports,
            final(pda).is_signer == old(pda).is_signer,
            final(pda).is_writable == old(pda).is_writable,
            final(pda).executable == old(pda).executable,
    {
        proof {
            lemma_auto_spec_u64_to_from_le_bytes();
        }
        write_bytes_at(&mut pda.data, 0, self.admin.as_slice());
        write_bytes_at(&mut pda.data, 32, self.token_balc.as_slice());
        pda.data.set(40, self.bump);
        assert(spec_u64_to_le_bytes(spec_u64_from_le_bytes(self.token_balc@)) == self.token_balc@);
        assert(pda.data@ =~= vault_bytes(self@));
    }
}

/// One loan recorded by a borrow: the vault token account lent from and the
/// balance it must hold again, fee included, when the loan is repaid.
#[derive(Clone, Copy, Debug)]
pub struct Loan {
    pub vault_ata: [u8; 32],
    pub balc_plus_fee: u64,
}

/// The 40 bytes that record `loan`: the vault token account's address, then
/// the balance plus fee, little-endian.
pub open spec fn loan_bytes(loan: Loan) -> Seq<u8> {
    loan.vault_ata@ + spec_u64_to_le_bytes(loan.balc_plus_fee)
}

/// The vault token account address of record `i` of loans data.
pub open spec fn recorded_vault_ata(data: Seq<u8>, i: int) -> Seq<u8> {
    data.subrange(Loan::LEN * i, Loan::LEN * i + 32)
}

/// The balance plus fee of record `i` of loans data.
pub open spec fn recorded_balc_plus_fee(data: Seq<u8>, i: int) -> u64 {
    le_u64_at(data, Loan::LEN * i + 32)
}

impl Loan {
    pub const LEN: usize = 40;

    /// Record `i` of loans data.
    pub fn read_from(data: &[u8], i: usize) -> (r: Loan)
        requires
            Loan::LEN * (i + 1) <= data.len(),
        ensures
            r.vault_ata@ == recorded_vault_ata(data@, i as int),
            r.balc_plus_fee == recorded_balc_plus_fee(data@, i as int),
    {
        let off = Loan::LEN * i;
        let vault_ata = address_at(data, off);
        let balc_plus_fee = u64_from_le_bytes(vstd::slice::slice_subrange(data, off + 32, off + 40));
        Loan { vault_ata, balc_plus_fee }
    }

    /// Writes this loan as record `i` of loans data; the other bytes stay.
    pub fn write_to(&self, data: &mut Vec<u8>, i: usize)
        requires
            Loan::LEN * (i + 1) <= old(data).len(),
        ensures
            final(data)@.len() == old(data)@.len(),
            final(data)@.subrange(Loan::LEN * i, Loan::LEN * i + Loan::LEN) == loan_bytes(*self),
            forall|k: int|
                0 <= k < old(data)@.len() && !(Loan::LEN * i <= k < Loan::LEN * i + Loan::LEN)
                    ==> #[trigger] final(data)@[k] == old(data)@[k],
    {
        proof {
            lemma_auto_spec_u64_to_from_le_bytes();
        }
        let off = Loan::LEN * i;
        let amount = u64_to_le_bytes(self.balc_plus_fee);
        let ghost d0 = data@;
        write_bytes_at(data, off, self.vault_ata.as_slice());
        let ghost d1 = data@;
        write_bytes_at(data, off + 32, amount.as_slice());
        assert forall|k: int| 0 <= k < 40 implies #[trigger] data@.subrange(off as int, off + 40)[k] == loan_bytes(*self)[k] by {
            if k < 32 {
                assert(d1.subrange(off as int, off + 32)[k] == self.vault_ata@[k]);
            } else {
                assert(data@.subrange(off + 32, off + 40)[k - 32] == amount@[k - 32]);
            }
        }
        assert(data@.subrange(off as int, off + 40) =~= loan_bytes(*self));
    }
}

/// The account that records the loans of one borrow, one `Loan` after another.
#[derive(Clone, Copy, Debug)]
pub struct Loans {}

impl Loans {
    /// The seed prefix of loans addresses (`b"loans"`).
    pub const SEED: [u8; 5] = [108, 111, 97, 110, 115];
}

} // verus!

verus! {

/// A vault written into account data reads back as the same vault.
pub proof fn lemma_vault_bytes_roundtrip(v: VaultView)
    requires
        v.admin.len() == 32,
    ensures
        vault_bytes(v).len() == Vault::LEN,
        vault_from_bytes(vault_bytes(v)) == v,
{
    lemma_auto_spec_u64_to_from_le_bytes();
    let b = vault_bytes(v);
    assert(b.subrange(0, 32) =~= v.admin);
    assert(b.subrange(32, 40) =~= spec_u64_to_le_bytes(v.token_balc));
}

/// What is written as record `i` of loans data reads back as the same loan,
/// and the records before and after it read as they did before the write.
pub proof fn lemma_loan_record_roundtrip(before: Seq<u8>, after: Seq<u8>, i: int, loan: Loan)
    requires
        0 <= i,
        Loan::LEN * (i + 1) <= before.len(),
        after.len() == before.len(),
        after.subrange(Loan::LEN * i, Loan::LEN * i + Loan::LEN) == loan_bytes(loan),
        forall|k: int|
            0 <= k < before.len() && !(Loan::LEN * i <= k < Loan::LEN * i + Loan::LEN)
                ==> #[trigger] after[k] == before[k],
    ensures
        recorded_vault_ata(after, i) == loan.vault_ata@,
        recorded_balc_plus_fee(after, i) == loan.balc_plus_fee,
        forall|j: int|
            0 <= j && j != i && Loan::LEN * (j + 1) <= before.len() ==> {
                &&& #[trigger] recorded_vault_ata(after, j) == recorded_vault_ata(before, j)
                &&& recorded_balc_plus_fee(after, j) == recorded_balc_plus_fee(before, j)
            },
{
    lemma_record_reads_loan(after, i, loan);
    assert forall|j: int|
        0 <= j && j != i && Loan::LEN * (j + 1) <= before.len() implies {
            &&& #[trigger] recorded_vault_ata(after, j) == recorded_vault_ata(before, j)
            &&& recorded_balc_plus_fee(after, j) == recorded_balc_plus_fee(before, j)
        } by {
        lemma_other_record_unchanged(before, after, i, j);
    }
}

/// Loans data whose record `i` holds the bytes of `loan` records `loan` there.
pub proof fn lemma_record_reads_loan(data: Seq<u8>, i: int, loan: Loan)
    requires
        0 <= i,
        Loan::LEN * (i + 1) <= data.len(),
        data.subrange(Loan::LEN * i, Loan::LEN * i + Loan::LEN) == loan_bytes(loan),
    ensures
        recorded_vault_ata(data, i) == loan.vault_ata@,
        recorded_balc_plus_fee(data, i) == loan.balc_plus_fee,
{
    lemma_auto_spec_u64_to_from_le_bytes();
    let off = Loan::LEN * i;
    let rec = data.subrange(off, off + 40);
    assert(recorded_vault_ata(data, i) =~= rec.subrange(0, 32));
    assert(rec.subrange(0, 32) =~= loan.vault_ata@);
    assert(data.subrange(off + 32, off + 40) =~= rec.subrange(32, 40));
    assert(rec.subrange(32, 40) =~= spec_u64_to_le_bytes(loan.balc_plus_fee));
}

proof fn lemma_other_record_unchanged(before: Seq<u8>, after: Seq<u8>, i: int, j: int)
    requires
        0 <= i,
        0 <= j,
        j != i,
        Loan::LEN * (j + 1) <= before.len(),
        after.len() == before.len(),
        forall|k: int|
            0 <= k < before.len() && !(Loan::LEN * i <= k < Loan::LEN * i + Loan::LEN)
                ==> #[trigger] after[k] == before[k],
    ensures
        recorded_vault_ata(after, j) == recorded_vault_ata(before, j),
        recorded_balc_plus_fee(after, j) == recorded_balc_plus_fee(before, j),
{
    assert(j < i || j > i);
    assert(recorded_vault_ata(after, j) =~= recorded_vault_ata(before, j));
    assert(after.subrange(Loan::LEN * j + 32, Loan::LEN * j + 40) =~= before.subrange(Loan::LEN * j + 32, Loan::LEN * j + 40));
}

} // verus!

verus! {

/// Vault account data read as a vault and written back gives the same bytes.
pub proof fn lemma_vault_data_roundtrip(data: Seq<u8>)
    requires
        data.len() == Vault::LEN,
    ensures
        vault_bytes(vault_from_bytes(data)) == data,
{
    lemma_auto_spec_u64_to_from_le_bytes();
    let v = vault_from_bytes(data);
    assert(spec_u64_to_le_bytes(spec_u64_from_le_bytes(data.subrange(32, 40))) == data.subrange(32, 40));
    assert(vault_bytes(v) =~= data);
}

} // verus!
