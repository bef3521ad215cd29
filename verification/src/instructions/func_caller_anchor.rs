use vstd::prelude::*;
use vstd::slice::slice_subrange;
use crate::account::AccountView;
use crate::address::SYSTEM_PROGRAM_ID;
use crate::cpi::{AccountMeta, Action};
use crate::error::{Ee, ProgramError, ProgramResult};
use crate::parse::custom;
use crate::utils::{and_then, check_signer, check_sysprog, fail_if, spec_check_address, spec_check_signer};

verus! {

/// InitAnchorPdaCaller: calls another program's instruction with caller-chosen
/// data, naming the vault, the signer and the system program.
///
/// Accounts: signer, target program, system program, then the vaults. Data:
/// the number of accounts to name in the call, then the call's data.
pub struct InitAnchorPdaCaller {
    pub signer: usize,
    pub target_prog: usize,
    /// The position of the first vault; the vaults follow one another.
    pub vaults: usize,
    pub vaults_len: usize,
    pub system_program: usize,
    pub accts_len: u8,
    pub ix_data: Vec<u8>,
}

/// The checks of InitAnchorPdaCaller on its data and accounts, in order.
pub open spec fn init_anchor_check(data: Seq<u8>, accounts: Seq<AccountView>) -> ProgramResult {
    let n = accounts.len() - 3;
    if accounts.len() < 3 {
        Err(ProgramError::NotEnoughAccountKeys)
    } else {
        and_then(spec_check_signer(accounts[0]),
        and_then(spec_check_address(accounts[2], SYSTEM_PROGRAM_ID, Ee::SystemProgram),
        and_then(fail_if(n > 8 || n == 0, Ee::TxnLenInvalid),
        if data.len() == 0 { Err(custom(Ee::ByteSizeForU8)) } else { Ok(()) })))
    }
}

/// The accounts that the call may name, in order: the vault (writable), the
/// signer (writable, signing) and the system program.
pub open spec fn anchor_call_accounts(vault: usize, signer: usize, system_program: usize) -> Seq<AccountMeta> {
    seq![
        AccountMeta { index: vault, is_writable: true, is_signer: false },
        AccountMeta { index: signer, is_writable: true, is_signer: true },
        AccountMeta { index: system_program, is_writable: false, is_signer: false },
    ]
}

impl InitAnchorPdaCaller {
    pub const DISCRIMINATOR: u8 = 6;

    /// What a parse of `data` and `accounts` gives when every check passes.
    pub open spec fn parsed_from(&self, data: Seq<u8>, accounts: Seq<AccountView>) -> bool {
        &&& self.signer == 0
        &&& self.target_prog == 1
        &&& self.system_program == 2
        &&& self.vaults == 3
        &&& self.vaults_len == accounts.len() - 3
        &&& self.accts_len == data[0]
        &&& self.ix_data@ == data.subrange(1, data.len() as int)
    }

    /// Parses the instruction from its data and accounts. The checks run in the
    /// order that `init_anchor_check` gives; the first that fails decides the error.
    pub fn try_from(data: &[u8], accounts: &[AccountView]) -> (r: Result<InitAnchorPdaCaller, ProgramError>)
        ensures
            init_anchor_check(data@, accounts@) is Err
                ==> r == Err::<InitAnchorPdaCaller, ProgramError>(init_anchor_check(data@, accounts@)->Err_0),
            init_anchor_check(data@, accounts@) is Ok ==> r is Ok && r->Ok_0.parsed_from(data@, accounts@),
    {
        if accounts.len() < 3 {
            return Err(ProgramError::NotEnoughAccountKeys);
        }
        check_signer(&accounts[0])?;
        check_sysprog(&accounts[2])?;
        let txn_len = accounts.len() - 3;
        if txn_len > 8 || txn_len == 0 {
            return Err(ProgramError::from(Ee::TxnLenInvalid));
        }
        if data.len() == 0 {
            return Err(ProgramError::from(Ee::ByteSizeForU8));
        }
        let accts_len = data[0];
        let mut ix_data: Vec<u8> = Vec::new();
        ix_data.extend_from_slice(slice_subrange(data, 1, data.len()));
        assert(ix_data@ =~= data@.subrange(1, data@.len() as int));
        Ok(InitAnchorPdaCaller {
            signer: 0,
            target_prog: 1,
            vaults: 3,
            vaults_len: txn_len,
            system_program: 2,
            accts_len,
            ix_data,
        })
    }

    /// The call to the target program: there must be exactly one vault
    /// (`TxnAcctsLength`), and the call names the first `accts_len` of the vault,
    /// the signer and the system program; asking for more than these three fails
    /// with `NotEnoughAccountKeys`.
    pub fn process(&self) -> (r: Result<Action, ProgramError>)
        ensures
            self.vaults_len != 1 ==> r == Err::<Action, ProgramError>(custom(Ee::TxnAcctsLength)),
            self.vaults_len == 1 && self.accts_len > 3
                ==> r == Err::<Action, ProgramError>(ProgramError::NotEnoughAccountKeys),
            self.vaults_len == 1 && self.accts_len <= 3 ==> r is Ok && match r->Ok_0 {
                Action::Invoke { program, accounts, views, data } => {
                    &&& program == self.target_prog
                    &&& accounts@ == anchor_call_accounts(self.vaults, self.signer, self.system_program).take(self.accts_len as int)
                    &&& views@ == seq![self.vaults, self.signer, self.system_program]
                    &&& data@ == self.ix_data@
                },
                _ => false,
            },
    {
        if self.vaults_len != 1 {
            return Err(ProgramError::from(Ee::TxnAcctsLength));
        }
        if self.accts_len > 3 {
            return Err(ProgramError::NotEnoughAccountKeys);
        }
        let all: Vec<AccountMeta> = vec![
            AccountMeta { index: self.vaults, is_writable: true, is_signer: false },
            AccountMeta { index: self.signer, is_writable: true, is_signer: true },
            AccountMeta { index: self.system_program, is_writable: false, is_signer: false },
        ];
        let mut accounts: Vec<AccountMeta> = Vec::new();
        let mut i: usize = 0;
        while i < self.accts_len as usize
            invariant
                self.accts_len <= 3,
                all@ == anchor_call_accounts(self.vaults, self.signer, self.system_program),
                i <= self.accts_len,
                accounts@ == all@.take(i as int),
            decreases self.accts_len - i,
        {
            accounts.push(all[i]);
            assert(all@.take(i + 1) =~= all@.take(i as int).push(all@[i as int]));
            i = i + 1;
        }
        let views: Vec<usize> = vec![self.vaults, self.signer, self.system_program];
        let mut data: Vec<u8> = Vec::new();
        data.extend_from_slice(self.ix_data.as_slice());
        assert(data@ =~= self.ix_data@);
        assert(views@ =~= seq![self.vaults, self.signer, self.system_program]);
        Ok(Action::Invoke { program: self.target_prog, accounts, views, data })
    }
}

} // verus!

verus! {

/// Whatever prefix of its accounts the anchor call names, the vault goes
/// writable and not signing, the signer writable and signing, and the system
/// program read-only and not signing; they come in that order, each at most
/// once. The three are distinct accounts, as a parse places them.
pub proof fn law_anchor_call_accounts(vault: usize, signer: usize, system_program: usize, k: int)
    requires
        vault != signer,
        vault != system_program,
        signer != system_program,
        0 <= k <= 3,
    ensures
        ({
            let metas = anchor_call_accounts(vault, signer, system_program).take(k);
            &&& metas.len() == k
            &&& forall|j: int| 0 <= j < k && metas[j].index == vault
                ==> #[trigger] metas[j].is_writable && !metas[j].is_signer
            &&& forall|j: int| 0 <= j < k && metas[j].index == signer
                ==> #[trigger] metas[j].is_writable && metas[j].is_signer
            &&& forall|j: int| 0 <= j < k && metas[j].index == system_program
                ==> !(#[trigger] metas[j].is_writable) && !metas[j].is_signer
            &&& k >= 1 ==> metas[0].index == vault
            &&& k >= 2 ==> metas[1].index == signer
            &&& k >= 3 ==> metas[2].index == system_program
        }),
{
}

} // verus!

verus! {

/// The number of vaults decides `TxnLenInvalid` alone: once the signer and the
/// system program pass, the anchor caller fails with `TxnLenInvalid` exactly
/// when it names no vault or more than eight; otherwise it is parsed whenever
/// its data holds the count byte, which becomes `accts_len`, the rest becoming
/// the call's data.
pub proof fn law_anchor_caller_parse(data: Seq<u8>, accounts: Seq<AccountView>, ix: InitAnchorPdaCaller)
    requires
        accounts.len() >= 3,
        spec_check_signer(accounts[0]) is Ok,
        accounts[2].address@ == SYSTEM_PROGRAM_ID@,
    ensures
        init_anchor_check(data, accounts) == Err::<(), ProgramError>(custom(Ee::TxnLenInvalid))
            <==> accounts.len() - 3 == 0 || accounts.len() - 3 > 8,
        1 <= accounts.len() - 3 <= 8 && data.len() > 0 ==> init_anchor_check(data, accounts) is Ok,
        init_anchor_check(data, accounts) is Ok && ix.parsed_from(data, accounts)
            ==> ix.accts_len == data[0] && ix.ix_data@ == data.drop_first(),
{
    assert(data.len() > 0 ==> data.subrange(1, data.len() as int) =~= data.drop_first());
}

} // verus!
