use vstd::prelude::*;
use crate::address::{address_eq, Address, PROG_ADDR};
use crate::error::{Ee, ProgramError};
use crate::instructions::flashloan_borrow::FlashloanBorrow;
use crate::instructions::flashloan_repay::FlashloanRepay;
use crate::instructions::func_caller::FuncCaller;
use crate::instructions::tok_lgc_deposit::TokLgcDeposit;
use crate::instructions::vault_ata_init::VaultAtaInit;
use crate::instructions::vault_init::VaultInit;
use crate::parse::custom;

verus! {

/// Whether `d` is the discriminator of an instruction that the program runs:
/// VaultInit, VaultAtaInit, TokLgcDeposit, FlashloanBorrow, FlashloanRepay or
/// FuncCaller.
pub open spec fn dispatched(d: u8) -> bool {
    ||| d == VaultInit::DISCRIMINATOR
    ||| d == VaultAtaInit::DISCRIMINATOR
    ||| d == TokLgcDeposit::DISCRIMINATOR
    ||| d == FlashloanBorrow::DISCRIMINATOR
    ||| d == FlashloanRepay::DISCRIMINATOR
    ||| d == FuncCaller::DISCRIMINATOR
}

/// The instruction that the program runs for `instruction_data`, named by its
/// discriminator, or why none runs: the call must be addressed to this program
/// (`IncorrectProgramId`) and carry a discriminator (`InvalidInstructionData`)
/// that names a dispatched instruction (`MethodDiscriminator`).
pub open spec fn spec_route(program_id: Address, instruction_data: Seq<u8>) -> Result<u8, ProgramError> {
    if program_id@ != PROG_ADDR@ {
        Err(ProgramError::IncorrectProgramId)
    } else if instruction_data.len() == 0 {
        Err(ProgramError::InvalidInstructionData)
    } else if dispatched(instruction_data[0]) {
        Ok(instruction_data[0])
    } else {
        Err(custom(Ee::MethodDiscriminator))
    }
}

/// Reads the discriminator (the first byte) of the instruction data and picks
/// the instruction to run; its data is the rest of the bytes.
pub fn route_instruction(program_id: &Address, instruction_data: &[u8]) -> (r: Result<u8, ProgramError>)
    ensures
        r == spec_route(*program_id, instruction_data@),
{
    if !address_eq(program_id, &PROG_ADDR) {
        return Err(ProgramError::IncorrectProgramId);
    }
    if instruction_data.len() == 0 {
        return Err(ProgramError::InvalidInstructionData);
    }
    let discriminator = instruction_data[0];
    if discriminator == VaultInit::DISCRIMINATOR || discriminator == VaultAtaInit::DISCRIMINATOR
        || discriminator == TokLgcDeposit::DISCRIMINATOR
        || discriminator == FlashloanBorrow::DISCRIMINATOR
        || discriminator == FlashloanRepay::DISCRIMINATOR
        || discriminator == FuncCaller::DISCRIMINATOR {
        Ok(discriminator)
    } else {
        Err(ProgramError::from(Ee::MethodDiscriminator))
    }
}

} // verus!

verus! {

/// Instruction data addressed to this program runs the instruction that its
/// first byte names when that byte is one of 0 to 5 (VaultInit, VaultAtaInit,
/// TokLgcDeposit, FlashloanBorrow, FlashloanRepay, FuncCaller, in that order),
/// whatever follows it; any other first byte is refused with
/// `MethodDiscriminator`.
pub proof fn law_route_by_first_byte(d: u8, rest: Seq<u8>)
    ensures
        d <= 5 ==> spec_route(PROG_ADDR, seq![d] + rest) == Ok::<u8, ProgramError>(d),
        d > 5 ==> spec_route(PROG_ADDR, seq![d] + rest) == Err::<u8, ProgramError>(custom(Ee::MethodDiscriminator)),
        VaultInit::DISCRIMINATOR == 0 && VaultAtaInit::DISCRIMINATOR == 1 && TokLgcDeposit::DISCRIMINATOR == 2
            && FlashloanBorrow::DISCRIMINATOR == 3 && FlashloanRepay::DISCRIMINATOR == 4 && FuncCaller::DISCRIMINATOR == 5,
{
    assert((seq![d] + rest)[0] == d);
}

} // verus!
