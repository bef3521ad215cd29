use vstd::prelude::*;
use vstd::bytes::{lemma_auto_spec_u16_to_from_le_bytes, spec_u16_to_le_bytes, u16_to_le_bytes};
use vstd::slice::slice_subrange;
use crate::account::AccountView;
use crate::address::{RENT_ID, SYSTEM_PROGRAM_ID};
use crate::cpi::{AccountMeta, Action};
use crate::error::{Ee, ProgramError, ProgramResult};
use crate::instructions::vault_init::{lemma_new_vaults_never_txn_len, new_vaults_check};
use crate::parse::{custom, law_u16s_read_back, le_u16_at, le_u16s, read_u16s, u16s_le_bytes};
use crate::utils::{
    and_then, check_rent_sysvar, check_signer, check_sysprog, fail_if, none_zero_u16,
    none_zero_u8, spec_check_address, spec_check_signer, writable,
};

verus! {

/// FuncCaller: calls another program's vault-initializing instruction
/// (its discriminator 0) for two new vaults.
///
/// Accounts: signer, target program, system program, rent sysvar, then the
/// vaults. Data: one bump byte per vault, then one little-endian `u16` fee per
/// vault.
pub struct FuncCaller {
    pub signer: usize,
    pub target_prog: usize,
    /// The position of the first vault; the vaults follow one another.
    pub vaults: usize,
    pub vaults_len: usize,
    pub system_program: usize,
    pub rent_sysvar: usize,
    pub fees: Vec<u16>,
    pub vault_bumps: Vec<u8>,
}

/// The checks of FuncCaller on its data and accounts, in order.
pub open spec fn func_caller_check(data: Seq<u8>, accounts: Seq<AccountView>) -> ProgramResult {
    let n = accounts.len() - 4;
    if accounts.len() < 4 {
        Err(ProgramError::NotEnoughAccountKeys)
    } else {
        and_then(spec_check_signer(accounts[0]),
        and_then(spec_check_address(accounts[2], SYSTEM_PROGRAM_ID, Ee::SystemProgram),
        and_then(spec_check_address(accounts[3], RENT_ID, Ee::RentSysvar),
        and_then(fail_if(n > 8 || n == 0, Ee::TxnLenInvalid),
        and_then(fail_if(data.len() < n, Ee::ByteSizeVaultBumps),
        and_then(fail_if(data.len() - n < 2 * n, Ee::ByteSizeFees),
        and_then(fail_if(data.len() > 3 * n, Ee::InputDataLen),
        new_vaults_check(accounts, data, 4, n, 0))))))))
    }
}

/// The data of the called instruction: discriminator 0, the two bumps, then the
/// two fees, little-endian.
pub open spec fn func_caller_data(bumps: Seq<u8>, fees: Seq<u16>) -> Seq<u8> {
    seq![0u8, bumps[0], bumps[1]] + spec_u16_to_le_bytes(fees[0]) + spec_u16_to_le_bytes(fees[1])
}

impl FuncCaller {
    pub const DISCRIMINATOR: u8 = 5;

    /// What a parse of `data` and `accounts` gives when every check passes.
    pub open spec fn parsed_from(&self, data: Seq<u8>, accounts: Seq<AccountView>) -> bool {
        let n = accounts.len() - 4;
        &&& self.signer == 0
        &&& self.target_prog == 1
        &&& self.system_program == 2
        &&& self.rent_sysvar == 3
        &&& self.vaults == 4
        &&& self.vaults_len == n
        &&& self.vault_bumps@ == data.subrange(0, n)
        &&& self.fees@ == le_u16s(data.subrange(n, 3 * n))
    }

    /// Parses the instruction from its data and accounts. The checks run in the
    /// order that `func_caller_check` gives; the first that fails decides the error.
    pub fn try_from(data: &[u8], accounts: &[AccountView]) -> (r: Result<FuncCaller, ProgramError>)
        ensures
            func_caller_check(data@, accounts@) is Err
                ==> r == Err::<FuncCaller, ProgramError>(func_caller_check(data@, accounts@)->Err_0),
            func_caller_check(data@, accounts@) is Ok ==> r is Ok && r->Ok_0.parsed_from(data@, accounts@),
    {
        if accounts.len() < 4 {
            return Err(ProgramError::NotEnoughAccountKeys);
        }
        check_signer(&accounts[0])?;
        check_sysprog(&accounts[2])?;
        check_rent_sysvar(&accounts[3])?;
        let txn_len = accounts.len() - 4;
        if txn_len > 8 || txn_len == 0 {
            return Err(ProgramError::from(Ee::TxnLenInvalid));
        }
        if data.len() < txn_len {
            return Err(ProgramError::from(Ee::ByteSizeVaultBumps));
        }
        let vault_bumps = slice_subrange(data, 0, txn_len);
        if data.len() - txn_len < 2 * txn_len {
            return Err(ProgramError::from(Ee::ByteSizeFees));
        }
        let fees = read_u16s(slice_subrange(data, txn_len, 3 * txn_len));
        if data.len() > 3 * txn_len {
            return Err(ProgramError::from(Ee::InputDataLen));
        }
        let ghost n = txn_len as int;
        let mut i: usize = 0;
        while i < txn_len
            invariant
                txn_len == accounts@.len() - 4,
                1 <= txn_len <= 8,
                data@.len() == 3 * txn_len,
                vault_bumps@ == data@.subrange(0, n),
                fees@ == le_u16s(data@.subrange(n, 3 * n)),
                n == txn_len,
                i <= txn_len,
                func_caller_check(data@, accounts@) == new_vaults_check(accounts@, data@, 4, n, i as int),
            decreases txn_len - i,
        {
            let vault = &accounts[4 + i];
            writable(vault)?;
            if !vault.is_data_empty() {
                return Err(ProgramError::from(Ee::VaultExists));
            }
            none_zero_u8(vault_bumps[i])?;
            assert(fees@[i as int] == le_u16_at(data@, n + 2 * i)) by {
                assert(data@.subrange(n, 3 * n).subrange(2 * i, 2 * i + 2)
                    =~= data@.subrange(n + 2 * i, n + 2 * i + 2));
            }
            none_zero_u16(fees[i])?;
            i = i + 1;
        }
        let mut bumps: Vec<u8> = Vec::new();
        bumps.extend_from_slice(vault_bumps);
        assert(bumps@ =~= vault_bumps@);
        Ok(FuncCaller {
            signer: 0,
            target_prog: 1,
            vaults: 4,
            vaults_len: txn_len,
            system_program: 2,
            rent_sysvar: 3,
            fees,
            vault_bumps: bumps,
        })
    }

    /// The parsed instruction holds one bump and one fee per vault.
    pub open spec fn wf(&self) -> bool {
        &&& self.fees@.len() == self.vaults_len
        &&& self.vault_bumps@.len() == self.vaults_len
        &&& self.vaults + 2 <= usize::MAX
    }

    /// Whether `a` calls the target program with the signer, the system program,
    /// the rent sysvar and the two vaults, and the data of `func_caller_data`.
    pub open spec fn calls_target(&self, a: Action) -> bool {
        match a {
            Action::Invoke { program, accounts, views, data } => {
                &&& program == self.target_prog
                &&& accounts@ == seq![
                    AccountMeta { index: self.signer, is_writable: true, is_signer: true },
                    AccountMeta { index: self.system_program, is_writable: false, is_signer: false },
                    AccountMeta { index: self.rent_sysvar, is_writable: false, is_signer: false },
                    AccountMeta { index: self.vaults, is_writable: true, is_signer: false },
                    AccountMeta { index: (self.vaults + 1) as usize, is_writable: true, is_signer: false },
                ]
                &&& views@ == seq![self.signer, self.system_program, self.rent_sysvar, self.vaults, (self.vaults + 1) as usize]
                &&& data@ == func_caller_data(self.vault_bumps@, self.fees@)
            },
            _ => false,
        }
    }

    /// The call to the target program; there must be exactly two vaults
    /// (`TxnAcctsLength`).
    pub fn process(&self) -> (r: Result<Action, ProgramError>)
        requires
            self.wf(),
        ensures
            self.vaults_len != 2 ==> r == Err::<Action, ProgramError>(custom(Ee::TxnAcctsLength)),
            self.vaults_len == 2 ==> r is Ok && self.calls_target(r->Ok_0),
    {
        if self.vaults_len != 2 {
            return Err(ProgramError::from(Ee::TxnAcctsLength));
        }
        let accounts: Vec<AccountMeta> = vec![
            AccountMeta { index: self.signer, is_writable: true, is_signer: true },
            AccountMeta { index: self.system_program, is_writable: false, is_signer: false },
            AccountMeta { index: self.rent_sysvar, is_writable: false, is_signer: false },
            AccountMeta { index: self.vaults, is_writable: true, is_signer: false },
            AccountMeta { index: self.vaults + 1, is_writable: true, is_signer: false },
        ];
        let views: Vec<usize> = vec![self.signer, self.system_program, self.rent_sysvar, self.vaults, self.vaults + 1];
        let mut data: Vec<u8> = vec![0u8, self.vault_bumps[0], self.vault_bumps[1]];
        let fee0 = u16_to_le_bytes(self.fees[0]);
        let fee1 = u16_to_le_bytes(self.fees[1]);
        data.extend_from_slice(fee0.as_slice());
        data.extend_from_slice(fee1.as_slice());
        assert(data@ =~= func_caller_data(self.vault_bumps@, self.fees@));
        assert(accounts@ =~= seq![
            AccountMeta { index: self.signer, is_writable: true, is_signer: true },
            AccountMeta { index: self.system_program, is_writable: false, is_signer: false },
            AccountMeta { index: self.rent_sysvar, is_writable: false, is_signer: false },
            AccountMeta { index: self.vaults, is_writable: true, is_signer: false },
            AccountMeta { index: (self.vaults + 1) as usize, is_writable: true, is_signer: false },
        ]);
        assert(views@ =~= seq![self.signer, self.system_program, self.rent_sysvar, self.vaults, (self.vaults + 1) as usize]);
        Ok(Action::Invoke { program: self.target_prog, accounts, views, data })
    }
}

} // verus!

verus! {

/// The call that FuncCaller makes hands each of the two vaults to the target
/// program writable and not signing, so that the target can create them; the
/// signer goes writable and signing, the system program and the rent sysvar
/// read-only and not signing. Its data is the target's vault-initializing
/// discriminator 0, then the two bumps and the two fees as the target reads
/// them back (one byte each, then little-endian `u16`s). The signer, system
/// program and rent sysvar are distinct accounts before the vaults, as a parse
/// places them.
pub proof fn law_func_caller_call(caller: FuncCaller, a: Action)
    requires
        caller.wf(),
        caller.vaults_len == 2,
        caller.signer < caller.vaults,
        caller.system_program < caller.vaults,
        caller.rent_sysvar < caller.vaults,
        caller.signer != caller.system_program,
        caller.signer != caller.rent_sysvar,
        caller.system_program != caller.rent_sysvar,
        caller.calls_target(a),
    ensures
        a matches Action::Invoke { program, accounts, views, data } && {
            let metas = accounts@;
            &&& program == caller.target_prog
            &&& forall|j: int| 0 <= j < metas.len() && (metas[j].index == caller.vaults || metas[j].index == caller.vaults + 1)
                ==> #[trigger] metas[j].is_writable && !metas[j].is_signer
            &&& forall|j: int| 0 <= j < metas.len() && metas[j].index == caller.signer
                ==> #[trigger] metas[j].is_writable && metas[j].is_signer
            &&& forall|j: int| 0 <= j < metas.len() && (metas[j].index == caller.system_program || metas[j].index == caller.rent_sysvar)
                ==> !(#[trigger] metas[j].is_writable) && !metas[j].is_signer
            &&& exists|j: int| 0 <= j < metas.len() && (#[trigger] metas[j]).index == caller.vaults
            &&& exists|j: int| 0 <= j < metas.len() && (#[trigger] metas[j]).index == caller.vaults + 1
            &&& forall|j: int| 0 <= j < metas.len() ==> views@.contains((#[trigger] metas[j]).index)
            &&& data@.len() == 7
            &&& data@[0] == 0
            &&& data@.subrange(1, 3) == caller.vault_bumps@
            &&& le_u16s(data@.subrange(3, 7)) == caller.fees@
        },
{
    lemma_auto_spec_u16_to_from_le_bytes();
    match a {
        Action::Invoke { program, accounts, views, data } => {
            let metas = accounts@;
            assert(metas[3].index == caller.vaults);
            assert(metas[4].index == caller.vaults + 1);
            assert forall|j: int| 0 <= j < metas.len() implies views@.contains((#[trigger] metas[j]).index) by {
                assert(views@[j] == metas[j].index);
            }
            let d = data@;
            assert(d.subrange(1, 3) =~= caller.vault_bumps@);
            assert(d.subrange(3, 7).subrange(0, 2) =~= spec_u16_to_le_bytes(caller.fees@[0]));
            assert(d.subrange(3, 7).subrange(2, 4) =~= spec_u16_to_le_bytes(caller.fees@[1]));
            assert(le_u16s(d.subrange(3, 7)) =~= caller.fees@);
        },
        _ => {},
    }
}

} // verus!

verus! {

/// FuncCaller data written as one bump per vault, then one fee per vault
/// (little-endian), parses, for as many vaults, back into those bumps and fees.
pub proof fn law_func_caller_data_read_back(caller: FuncCaller, bumps: Seq<u8>, fees: Seq<u16>, accounts: Seq<AccountView>)
    requires
        bumps.len() == fees.len(),
        accounts.len() == 4 + bumps.len(),
        caller.parsed_from(bumps + u16s_le_bytes(fees), accounts),
    ensures
        caller.vaults_len == bumps.len(),
        caller.vault_bumps@ == bumps,
        caller.fees@ == fees,
{
    law_u16s_read_back(fees);
    let data = bumps + u16s_le_bytes(fees);
    let n = bumps.len() as int;
    assert(data.subrange(0, n) =~= bumps);
    assert(data.subrange(n, 3 * n) =~= u16s_le_bytes(fees));
}

} // verus!

verus! {

/// The number of vaults decides `TxnLenInvalid` alone: once the signer, the
/// system program and the rent sysvar pass, FuncCaller fails with
/// `TxnLenInvalid` exactly when it names no vault or more than eight.
pub proof fn law_func_caller_count(data: Seq<u8>, accounts: Seq<AccountView>)
    requires
        accounts.len() >= 4,
        spec_check_signer(accounts[0]) is Ok,
        accounts[2].address@ == SYSTEM_PROGRAM_ID@,
        accounts[3].address@ == RENT_ID@,
    ensures
        func_caller_check(data, accounts) == Err::<(), ProgramError>(custom(Ee::TxnLenInvalid))
            <==> accounts.len() - 4 == 0 || accounts.len() - 4 > 8,
{
    lemma_new_vaults_never_txn_len(accounts, data, 4, accounts.len() - 4, 0);
}

} // verus!
