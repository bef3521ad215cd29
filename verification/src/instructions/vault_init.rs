use vstd::prelude::*;
use vstd::slice::slice_subrange;
use crate::account::AccountView;
use crate::address::{PROG_ADDR, RENT_ID, SYSTEM_PROGRAM_ID};
use crate::cpi::{Action, PdaSeeds};
use crate::error::{Ee, ProgramError, ProgramResult};
use crate::parse::{custom, law_u16s_read_back, le_u16_at, le_u16s, read_u16s, u16s_le_bytes};
use vstd::bytes::{
    lemma_auto_spec_u16_to_from_le_bytes, lemma_auto_spec_u64_to_from_le_bytes, spec_u16_from_le_bytes,
    spec_u16_to_le_bytes, spec_u64_to_le_bytes,
    spec_u64_to_le_bytes_to_open, u16_to_le_bytes,
};
use crate::state::{lemma_vault_data_roundtrip, spec_vault_check, vault_from_bytes, Vault, VaultView};
use crate::utils::{
    and_then, check_data_len, check_rent_sysvar, check_signer, check_sysprog, fail_if,
    minimum_balance, none_zero_u16, none_zero_u8, pass, spec_check_address, spec_check_data_len,
    spec_check_signer, spec_rent_minimum, writable,
};

verus! {

/// Vault Init: creates vault accounts, each derived from the seed `b"vault"`,
/// its fee (little-endian) and its bump.
///
/// Accounts: signer, system program, rent sysvar, then the vaults. Data: one
/// bump byte per vault, then one little-endian `u16` fee per vault.
pub struct VaultInit {
    pub signer: usize,
    pub system_program: usize,
    pub rent_sysvar: usize,
    /// The position of the first vault; the vaults follow one another.
    pub vaults: usize,
    pub vaults_len: usize,
    pub fees: Vec<u16>,
    pub vault_bumps: Vec<u8>,
}

/// The checks on new vault `i` of `n`, the vaults standing from position `base`:
/// it is writable (`NotWritable`) and holds no data (`VaultExists`), and its bump
/// (`ZeroU8`) and fee (`ZeroU16`) are not zero.
pub open spec fn new_vault_check(accounts: Seq<AccountView>, data: Seq<u8>, base: int, n: int, i: int) -> ProgramResult {
    let vault = accounts[base + i];
    and_then(
        fail_if(!vault.is_writable, Ee::NotWritable),
        and_then(
            fail_if(vault.data@.len() != 0, Ee::VaultExists),
            and_then(
                fail_if(data[i] == 0, Ee::ZeroU8),
                fail_if(le_u16_at(data, n + 2 * i) == 0, Ee::ZeroU16),
            ),
        ),
    )
}

/// The checks on new vaults `i..n`, in order; the first that fails decides.
pub open spec fn new_vaults_check(accounts: Seq<AccountView>, data: Seq<u8>, base: int, n: int, i: int) -> ProgramResult
    decreases n - i,
{
    if i < n {
        and_then(new_vault_check(accounts, data, base, n, i), new_vaults_check(accounts, data, base, n, i + 1))
    } else {
        pass()
    }
}

/// The checks of Vault Init on its data and accounts, in order.
pub open spec fn vault_init_check(data: Seq<u8>, accounts: Seq<AccountView>) -> ProgramResult {
    let n = accounts.len() - 3;
    and_then(
        spec_check_data_len(data, 3),
        if accounts.len() < 3 {
            Err(ProgramError::NotEnoughAccountKeys)
        } else {
            and_then(spec_check_signer(accounts[0]),
            and_then(spec_check_address(accounts[1], SYSTEM_PROGRAM_ID, Ee::SystemProgram),
            and_then(spec_check_address(accounts[2], RENT_ID, Ee::RentSysvar),
            and_then(fail_if(n > 8 || n == 0, Ee::TxnLenInvalid),
            and_then(fail_if(data.len() < n, Ee::ByteSizeVaultBumps),
            and_then(fail_if(data.len() - n < 2 * n, Ee::ByteSizeFees),
            and_then(fail_if(data.len() > 3 * n, Ee::InputDataLen),
            new_vaults_check(accounts, data, 3, n, 0))))))))
        },
    )
}

impl VaultInit {
    pub const DISCRIMINATOR: u8 = 0;

    /// What a parse of `data` and `accounts` gives when every check passes.
    pub open spec fn parsed_from(&self, data: Seq<u8>, accounts: Seq<AccountView>) -> bool {
        let n = accounts.len() - 3;
        &&& self.signer == 0
        &&& self.system_program == 1
        &&& self.rent_sysvar == 2
        &&& self.vaults == 3
        &&& self.vaults_len == n
        &&& self.vault_bumps@ == data.subrange(0, n)
        &&& self.fees@ == le_u16s(data.subrange(n, 3 * n))
    }

    /// Parses the instruction from its data and accounts. The checks run in the
    /// order that `vault_init_check` gives; the first that fails decides the error.
    pub fn try_from(data: &[u8], accounts: &[AccountView]) -> (r: Result<VaultInit, ProgramError>)
        ensures
            vault_init_check(data@, accounts@) is Err
                ==> r == Err::<VaultInit, ProgramError>(vault_init_check(data@, accounts@)->Err_0),
            vault_init_check(data@, accounts@) is Ok ==> r is Ok && r->Ok_0.parsed_from(data@, accounts@),
    {
        check_data_len(data, 3)?;
        if accounts.len() < 3 {
            return Err(ProgramError::NotEnoughAccountKeys);
        }
        check_signer(&accounts[0])?;
        check_sysprog(&accounts[1])?;
        check_rent_sysvar(&accounts[2])?;
        let txn_len = accounts.len() - 3;
        if txn_len > 8 || txn_len == 0 {
            return Err(ProgramError::from(Ee::TxnLenInvalid));
        }
        if data.len() < txn_len {
            return Err(ProgramError::from(Ee::ByteSizeVaultBumps));
        }
        let vault_bumps = slice_subrange(data, 0, txn_len);
        if data.len() - txn_len < 2 * txn_len {
            return Err(ProgramError::from(Ee::ByteSizeFees));
        }
        let fees_slice = slice_subrange(data, txn_len, 3 * txn_len);
        let fees = read_u16s(fees_slice);
        if data.len() > 3 * txn_len {
            return Err(ProgramError::from(Ee::InputDataLen));
        }
        let ghost n = txn_len as int;
        let mut i: usize = 0;
        while i < txn_len
            invariant
                txn_len == accounts@.len() - 3,
                1 <= txn_len <= 8,
                data@.len() == 3 * txn_len,
                vault_bumps@ == data@.subrange(0, n),
                fees@ == le_u16s(data@.subrange(n, 3 * n)),
                n == txn_len,
                i <= txn_len,
                vault_init_check(data@, accounts@) == new_vaults_check(accounts@, data@, 3, n, i as int),
            decreases txn_len - i,
        {
            let vault = &accounts[3 + i];
            writable(vault)?;
            if !vault.is_data_empty() {
                return Err(ProgramError::from(Ee::VaultExists));
            }
            none_zero_u8(vault_bumps[i])?;
            assert(fees@[i as int] == le_u16_at(data@, n + 2 * i)) by {
                assert(data@.subrange(n, 3 * n).subrange(2 * i, 2 * i + 2)
                    =~= data@.subrange(n + 2 * i, n + 2 * i + 2));
            }
            none_zero_u16(fees[i])?;
            i = i + 1;
        }
        let mut bumps: Vec<u8> = Vec::new();
        bumps.extend_from_slice(vault_bumps);
        assert(bumps@ =~= vault_bumps@);
        Ok(VaultInit {
            signer: 0,
            system_program: 1,
            rent_sysvar: 2,
            vaults: 3,
            vaults_len: txn_len,
            fees,
            vault_bumps: bumps,
        })
    }
}

impl VaultInit {
    /// The parsed instruction names `n_accounts` accounts consistently.
    pub open spec fn wf(&self, n_accounts: int) -> bool {
        &&& self.signer < n_accounts
        &&& self.rent_sysvar < n_accounts
        &&& self.vaults + self.vaults_len <= n_accounts
        &&& self.fees@.len() == self.vaults_len
        &&& self.vault_bumps@.len() == self.vaults_len
    }

    /// Whether `a` is the `CreateAccount` that makes vault `i` with `lamports`.
    pub open spec fn creates_vault(&self, a: Action, i: int, lamports: u64) -> bool {
        match a {
            Action::CreateAccount { from, to, lamports: l, space, owner, signer } => {
                &&& from == self.signer
                &&& to == self.vaults + i
                &&& l == lamports
                &&& space == Vault::LEN
                &&& owner@ == PROG_ADDR@
                &&& signer.prefix@ == Vault::SEED@
                &&& signer.key@ == spec_u16_to_le_bytes(self.fees@[i])
                &&& signer.bump == self.vault_bumps@[i]
            },
            _ => false,
        }
    }

    /// Step `i` of processing (the caller runs the steps in order and performs each
    /// action): the rent-exempt minimum for a vault, read from the
    /// rent sysvar, and the `CreateAccount` of vault `i`, signed with its seeds.
    pub fn process(&self, accounts: &[AccountView], i: usize) -> (r: Result<Action, ProgramError>)
        requires
            self.wf(accounts@.len() as int),
            i < self.vaults_len,
        ensures
            spec_rent_minimum(accounts@[self.rent_sysvar as int], Vault::LEN as int) is Err
                ==> r == Err::<Action, ProgramError>(spec_rent_minimum(accounts@[self.rent_sysvar as int], Vault::LEN as int)->Err_0),
            spec_rent_minimum(accounts@[self.rent_sysvar as int], Vault::LEN as int) is Ok ==> r is Ok
                && self.creates_vault(r->Ok_0, i as int, spec_rent_minimum(accounts@[self.rent_sysvar as int], Vault::LEN as int)->Ok_0),
    {
        let lamports = minimum_balance(&accounts[self.rent_sysvar], Vault::LEN)?;
        let fee_bytes = u16_to_le_bytes(self.fees[i]);
        Ok(Action::CreateAccount {
            from: self.signer,
            to: self.vaults + i,
            lamports,
            space: 41,
            owner: PROG_ADDR,
            signer: PdaSeeds { prefix: Vault::SEED, key: fee_bytes, bump: self.vault_bumps[i] },
        })
    }

    /// After vault `i` is made: reads it as a vault and records its bump.
    pub fn write_bump(vault: &mut AccountView, vault_bump: u8) -> (r: ProgramResult)
        ensures
            final(vault).address == old(vault).address,
            final(vault).owner == old(vault).owner,
            final(vault).lamports == old(vault).lamports,
            final(vault).is_signer == old(vault).is_signer,
            final(vault).is_writable == old(vault).is_writable,
            final(vault).executable == old(vault).executable,
            spec_vault_check(*old(vault)) is Err ==> r == spec_vault_check(*old(vault))
                && final(vault).data@ == old(vault).data@,
            spec_vault_check(*old(vault)) is Ok && vault_bump == 0 ==> r == fail_if(true, Ee::ZeroU8)
                && final(vault).data@ == old(vault).data@,
            spec_vault_check(*old(vault)) is Ok && vault_bump != 0 ==> r == pass()
                && final(vault).data@ == old(vault).data@.update(40, vault_bump),
    {
        let mut v = Vault::from_account_view(vault)?;
        v.set_bump(vault_bump)?;
        v.store(vault);
        proof {
            lemma_vault_data_roundtrip(old(vault).data@);
            assert(vault.data@ =~= old(vault).data@.update(40, vault_bump));
        }
        Ok(())
    }
}

} // verus!

verus! {

/// Where a vault initialization stands.
#[derive(Clone, Copy, Debug, PartialEq, Eq, Structural)]
pub enum VaultInitPhase {
    /// Vault `next` is created next.
    Create { next: usize },
    /// Vault `next` was created; its bump is recorded next.
    Record { next: usize },
    /// Every vault is made.
    Done,
}

/// `after` is the account `before` with other data: its address, owner,
/// lamports and flags are kept.
pub open spec fn same_but_data(before: AccountView, after: AccountView) -> bool {
    &&& after.address == before.address
    &&& after.owner == before.owner
    &&& after.lamports == before.lamports
    &&& after.is_signer == before.is_signer
    &&& after.is_writable == before.is_writable
    &&& after.executable == before.executable
}

impl VaultInit {
    /// One step of a vault initialization from `phase`, taking the accounts
    /// from `a0` to `a1` and giving `r`:
    /// - from `Create { next: i }` with a vault `i`: the rent-exempt minimum
    ///   for a vault, and when it is had, the `CreateAccount` of vault `i` and
    ///   the phase `Record { next: i }`; the accounts are left as they are;
    /// - from `Record { next: i }`: vault `i`, as it stands once created, is
    ///   read as a vault of this program and its bump is written in it; then the
    ///   phase `Create { next: i + 1 }` and no call; no other account changes;
    /// - after the last vault, and from `Done`: `Done` and no call.
    /// A failing step changes no account data.
    pub open spec fn init_step(
        &self,
        phase: VaultInitPhase,
        a0: Seq<AccountView>,
        a1: Seq<AccountView>,
        r: Result<(VaultInitPhase, Option<Action>), ProgramError>,
    ) -> bool {
        let n = self.vaults_len;
        match phase {
            VaultInitPhase::Create { next: i } => if i < n {
                let min = spec_rent_minimum(a0[self.rent_sysvar as int], Vault::LEN as int);
                &&& a1 == a0
                &&& min is Err ==> r == Err::<(VaultInitPhase, Option<Action>), ProgramError>(min->Err_0)
                &&& min is Ok ==> {
                    &&& r is Ok
                    &&& r->Ok_0.0 == (VaultInitPhase::Record { next: i })
                    &&& r->Ok_0.1 is Some
                    &&& self.creates_vault(r->Ok_0.1->Some_0, i as int, min->Ok_0)
                }
            } else {
                r == Ok::<(VaultInitPhase, Option<Action>), ProgramError>((VaultInitPhase::Done, None)) && a1 == a0
            },
            VaultInitPhase::Record { next: i } => if i < n {
                let at = self.vaults + i;
                let check = spec_vault_check(a0[at]);
                let bump = self.vault_bumps@[i as int];
                &&& a1 == a0.update(at, a1[at])
                &&& same_but_data(a0[at], a1[at])
                &&& check is Err ==> r == Err::<(VaultInitPhase, Option<Action>), ProgramError>(check->Err_0)
                    && a1[at].data@ == a0[at].data@
                &&& check is Ok && bump == 0 ==> r == Err::<(VaultInitPhase, Option<Action>), ProgramError>(custom(Ee::ZeroU8))
                    && a1[at].data@ == a0[at].data@
                &&& check is Ok && bump != 0 ==> {
                    &&& r == Ok::<(VaultInitPhase, Option<Action>), ProgramError>((VaultInitPhase::Create { next: (i + 1) as usize }, None))
                    &&& a1[at].data@ == a0[at].data@.update(40, bump)
                }
            } else {
                r == Ok::<(VaultInitPhase, Option<Action>), ProgramError>((VaultInitPhase::Done, None)) && a1 == a0
            },
            VaultInitPhase::Done => r == Ok::<(VaultInitPhase, Option<Action>), ProgramError>((VaultInitPhase::Done, None))
                && a1 == a0,
        }
    }

    /// Runs one step of the vault initialization: the caller starts from
    /// `Create { next: 0 }`, performs the call that each step gives, brings the
    /// accounts up to date, and stops at the first error or at `Done`.
    pub fn next(&self, phase: VaultInitPhase, accounts: &mut Vec<AccountView>)
        -> (r: Result<(VaultInitPhase, Option<Action>), ProgramError>)
        requires
            self.wf(old(accounts)@.len() as int),
        ensures
            self.init_step(phase, old(accounts)@, final(accounts)@, r),
    {
        match phase {
            VaultInitPhase::Create { next } => {
                if next < self.vaults_len {
                    let create = self.process(accounts.as_slice(), next)?;
                    Ok((VaultInitPhase::Record { next }, Some(create)))
                } else {
                    Ok((VaultInitPhase::Done, None))
                }
            },
            VaultInitPhase::Record { next } => {
                if next < self.vaults_len {
                    assert(accounts@.len() == accounts.len());
                    let at = self.vaults + next;
                    Self::write_bump(&mut accounts[at], self.vault_bumps[next])?;
                    Ok((VaultInitPhase::Create { next: next + 1 }, None))
                } else {
                    Ok((VaultInitPhase::Done, None))
                }
            },
            VaultInitPhase::Done => Ok((VaultInitPhase::Done, None)),
        }
    }
}

} // verus!

verus! {

/// The phase of an initialization of `n` vaults after `k` successful steps.
pub open spec fn init_phase_after(k: int, n: int) -> VaultInitPhase {
    if k <= 2 * n {
        if k % 2 == 0 {
            VaultInitPhase::Create { next: (k / 2) as usize }
        } else {
            VaultInitPhase::Record { next: (k / 2) as usize }
        }
    } else {
        VaultInitPhase::Done
    }
}

proof fn lemma_init_phases(
    init: VaultInit,
    phases: Seq<VaultInitPhase>,
    acts: Seq<Option<Action>>,
    ins: Seq<Seq<AccountView>>,
    outs: Seq<Seq<AccountView>>,
    m: int,
)
    requires
        0 <= m <= acts.len(),
        phases.len() == acts.len() + 1,
        ins.len() == acts.len(),
        outs.len() == acts.len(),
        phases[0] == (VaultInitPhase::Create { next: 0 }),
        forall|k: int| 0 <= k < acts.len() ==> #[trigger] init.init_step(phases[k], ins[k], outs[k],
            Ok::<(VaultInitPhase, Option<Action>), ProgramError>((phases[k + 1], acts[k]))),
    ensures
        phases[m] == init_phase_after(m, init.vaults_len as int),
    decreases m,
{
    if m > 0 {
        lemma_init_phases(init, phases, acts, ins, outs, m - 1);
        let k = m - 1;
        let n = init.vaults_len as int;
        assert(init.init_step(phases[k], ins[k], outs[k],
            Ok::<(VaultInitPhase, Option<Action>), ProgramError>((phases[k + 1], acts[k]))));
        if k <= 2 * n {
            if k % 2 == 0 {
                assert(phases[k] == VaultInitPhase::Create { next: (k / 2) as usize });
            } else {
                assert(phases[k] == VaultInitPhase::Record { next: (k / 2) as usize });
            }
        } else {
            assert(phases[k] == VaultInitPhase::Done);
        }
    }
}

/// Vault account data that the runtime created zeroed, once its bump is
/// recorded, holds no admin, a zero token balance and that bump.
pub proof fn law_new_vault_holds_bump(bump: u8)
    ensures
        vault_from_bytes(Seq::new(41, |j: int| 0u8).update(40, bump))
            == (VaultView { admin: Seq::new(32, |j: int| 0u8), token_balc: 0, bump: bump }),
{
    let data = Seq::new(41, |j: int| 0u8).update(40, bump);
    spec_u64_to_le_bytes_to_open(0);
    lemma_auto_spec_u64_to_from_le_bytes();
    assert((0u64 & 0xff) as u8 == 0u8
        && ((0u64 >> 8u64) & 0xff) as u8 == 0u8
        && ((0u64 >> 16u64) & 0xff) as u8 == 0u8
        && ((0u64 >> 24u64) & 0xff) as u8 == 0u8
        && ((0u64 >> 32u64) & 0xff) as u8 == 0u8
        && ((0u64 >> 40u64) & 0xff) as u8 == 0u8
        && ((0u64 >> 48u64) & 0xff) as u8 == 0u8
        && ((0u64 >> 56u64) & 0xff) as u8 == 0u8) by (bit_vector);
    assert(data.subrange(32, 40) =~= spec_u64_to_le_bytes(0));
    assert(data.subrange(0, 32) =~= Seq::new(32, |j: int| 0u8));
}

/// Vault initialization makes its calls in one order: for each vault in turn,
/// the `CreateAccount` that makes it, then the recording of its bump in it,
/// which makes no call, changes no other account and no other byte of the
/// vault, so that a vault that the runtime created zeroed then holds no admin,
/// a zero token balance and its bump; after the last vault, none. Here step `k` went from `phases[k]` to
/// `phases[k + 1]` and gave `acts[k]`, taking the accounts from `ins[k]` to
/// `outs[k]`.
pub proof fn law_vaults_made_in_order(
    init: VaultInit,
    phases: Seq<VaultInitPhase>,
    acts: Seq<Option<Action>>,
    ins: Seq<Seq<AccountView>>,
    outs: Seq<Seq<AccountView>>,
)
    requires
        phases.len() == acts.len() + 1,
        ins.len() == acts.len(),
        outs.len() == acts.len(),
        phases[0] == (VaultInitPhase::Create { next: 0 }),
        forall|k: int| 0 <= k < acts.len() ==> #[trigger] init.init_step(phases[k], ins[k], outs[k],
            Ok::<(VaultInitPhase, Option<Action>), ProgramError>((phases[k + 1], acts[k]))),
    ensures
        forall|k: int| 0 <= k < acts.len() && k < 2 * init.vaults_len && k % 2 == 0 ==> {
            &&& #[trigger] acts[k] is Some
            &&& init.creates_vault(acts[k]->Some_0, k / 2,
                spec_rent_minimum(ins[k][init.rent_sysvar as int], Vault::LEN as int)->Ok_0)
        },
        forall|k: int| 0 <= k < acts.len() && k < 2 * init.vaults_len && k % 2 == 1 ==> {
            let at = init.vaults + k / 2;
            &&& #[trigger] acts[k] is None
            &&& outs[k] == ins[k].update(at, outs[k][at])
            &&& same_but_data(ins[k][at], outs[k][at])
            &&& outs[k][at].data@ == ins[k][at].data@.update(40, init.vault_bumps@[k / 2])
            &&& ins[k][at].data@ == Seq::new(41, |j: int| 0u8) ==> vault_from_bytes(outs[k][at].data@)
                == (VaultView { admin: Seq::new(32, |j: int| 0u8), token_balc: 0, bump: init.vault_bumps@[k / 2] })
        },
        forall|k: int| 2 * init.vaults_len <= k < acts.len() ==> #[trigger] acts[k] is None,
{
    let n = init.vaults_len as int;
    assert forall|k: int| 0 <= k < acts.len() implies phases[k] == init_phase_after(k, n) by {
        lemma_init_phases(init, phases, acts, ins, outs, k);
    }
    assert forall|k: int| 0 <= k < acts.len() && k < 2 * n && k % 2 == 0 implies {
        &&& #[trigger] acts[k] is Some
        &&& init.creates_vault(acts[k]->Some_0, k / 2,
            spec_rent_minimum(ins[k][init.rent_sysvar as int], Vault::LEN as int)->Ok_0)
    } by {
        assert(phases[k] == init_phase_after(k, n));
        assert(init.init_step(phases[k], ins[k], outs[k],
            Ok::<(VaultInitPhase, Option<Action>), ProgramError>((phases[k + 1], acts[k]))));
    }
    assert forall|k: int| 0 <= k < acts.len() && k < 2 * n && k % 2 == 1 implies {
        let at = init.vaults + k / 2;
        &&& #[trigger] acts[k] is None
        &&& outs[k] == ins[k].update(at, outs[k][at])
        &&& same_but_data(ins[k][at], outs[k][at])
        &&& outs[k][at].data@ == ins[k][at].data@.update(40, init.vault_bumps@[k / 2])
        &&& ins[k][at].data@ == Seq::new(41, |j: int| 0u8) ==> vault_from_bytes(outs[k][at].data@)
            == (VaultView { admin: Seq::new(32, |j: int| 0u8), token_balc: 0, bump: init.vault_bumps@[k / 2] })
    } by {
        law_new_vault_holds_bump(init.vault_bumps@[k / 2]);
        assert(phases[k] == init_phase_after(k, n));
        assert(init.init_step(phases[k], ins[k], outs[k],
            Ok::<(VaultInitPhase, Option<Action>), ProgramError>((phases[k + 1], acts[k]))));
    }
    assert forall|k: int| 2 * n <= k < acts.len() implies #[trigger] acts[k] is None by {
        assert(phases[k] == init_phase_after(k, n));
        assert(init.init_step(phases[k], ins[k], outs[k],
            Ok::<(VaultInitPhase, Option<Action>), ProgramError>((phases[k + 1], acts[k]))));
    }
}

} // verus!

verus! {

/// Vault `i` is made by the signer at the position of vault `i`, owned by
/// this program, with room for exactly one vault, and signed for with the
/// seeds `b"vault"`, the fee of vault `i` (little-endian, so that it reads back
/// as that fee) and the bump of vault `i`.
pub proof fn law_vault_made_with_its_seeds(init: VaultInit, data: Seq<u8>, accounts: Seq<AccountView>, a: Action, i: int, lamports: u64)
    requires
        accounts.len() <= usize::MAX,
        vault_init_check(data, accounts) is Ok,
        init.parsed_from(data, accounts),
        0 <= i < init.vaults_len,
        init.creates_vault(a, i, lamports),
    ensures
        a matches Action::CreateAccount { from, to, lamports: l, space, owner, signer } && {
            &&& from == 0
            &&& to == 3 + i
            &&& l == lamports
            &&& space == 41
            &&& owner@ == PROG_ADDR@
            &&& signer.prefix@ == seq![118u8, 97u8, 117u8, 108u8, 116u8]
            &&& spec_u16_from_le_bytes(signer.key@) == le_u16_at(data, init.vaults_len + 2 * i)
            &&& signer.bump == data[i]
        },
{
    lemma_auto_spec_u16_to_from_le_bytes();
    assert(Vault::SEED@ =~= seq![118u8, 97u8, 117u8, 108u8, 116u8]);
    let n = init.vaults_len as int;
    assert(data.len() == 3 * n);
    assert(data.subrange(n, 3 * n).subrange(2 * i, 2 * i + 2) =~= data.subrange(n + 2 * i, n + 2 * i + 2));
}

} // verus!

verus! {

/// Vault Init data written as one bump per vault, then one fee per vault
/// (little-endian), parses, for as many vaults, back into those bumps and fees.
pub proof fn law_vault_init_data_read_back(init: VaultInit, bumps: Seq<u8>, fees: Seq<u16>, accounts: Seq<AccountView>)
    requires
        bumps.len() == fees.len(),
        accounts.len() == 3 + bumps.len(),
        init.parsed_from(bumps + u16s_le_bytes(fees), accounts),
    ensures
        init.vaults_len == bumps.len(),
        init.vault_bumps@ == bumps,
        init.fees@ == fees,
{
    law_u16s_read_back(fees);
    let data = bumps + u16s_le_bytes(fees);
    let n = bumps.len() as int;
    assert(data.subrange(0, n) =~= bumps);
    assert(data.subrange(n, 3 * n) =~= u16s_le_bytes(fees));
}

} // verus!

verus! {

pub(crate) proof fn lemma_new_vaults_never_txn_len(accounts: Seq<AccountView>, data: Seq<u8>, base: int, n: int, i: int)
    ensures
        new_vaults_check(accounts, data, base, n, i) != Err::<(), ProgramError>(custom(Ee::TxnLenInvalid)),
    decreases n - i,
{
    if i < n {
        lemma_new_vaults_never_txn_len(accounts, data, base, n, i + 1);
    }
}

/// The number of vaults decides `TxnLenInvalid` alone: once the data length,
/// the signer, the system program and the rent sysvar pass, Vault Init fails
/// with `TxnLenInvalid` exactly when it names no vault or more than eight.
pub proof fn law_vault_init_count(data: Seq<u8>, accounts: Seq<AccountView>)
    requires
        data.len() == 3,
        accounts.len() >= 3,
        spec_check_signer(accounts[0]) is Ok,
        accounts[1].address@ == SYSTEM_PROGRAM_ID@,
        accounts[2].address@ == RENT_ID@,
    ensures
        vault_init_check(data, accounts) == Err::<(), ProgramError>(custom(Ee::TxnLenInvalid))
            <==> accounts.len() - 3 == 0 || accounts.len() - 3 > 8,
{
    lemma_new_vaults_never_txn_len(accounts, data, 3, accounts.len() - 3, 0);
}

} // verus!
