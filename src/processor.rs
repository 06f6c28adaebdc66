use vstd::prelude::*;
use vstd::slice::slice_subrange;
use crate::account::{AccountInfo, AccountState, states};
use crate::address::{Pubkey, escrow_seeds_with_bump, created_program_address};
use crate::effect::Effect;
use crate::error::ProgramError;
use crate::make::{Make, make_outcome, make_check};
use crate::refund::{Refund, refund_outcome, lemma_refund_effects_same};
use crate::take::{Take, take_outcome, lemma_take_effects_same};

verus! {

/// The three operations of the escrow program.
#[derive(Clone, Copy, Debug, PartialEq, Eq, Structural)]
pub enum Instruction {
    /// Opens an escrow and fills its vault.
    Make,
    /// Settles an escrow: the two sides swap.
    Take,
    /// Cancels an escrow: the maker gets the deposit back.
    Refund,
}

/// The operation that an opcode names.
pub open spec fn instruction_of(tag: u8) -> Result<Instruction, ProgramError> {
    if tag == Make::DISCRIMINATOR {
        Ok(Instruction::Make)
    } else if tag == Take::DISCRIMINATOR {
        Ok(Instruction::Take)
    } else if tag == Refund::DISCRIMINATOR {
        Ok(Instruction::Refund)
    } else {
        Err(ProgramError::InvalidInstructionData)
    }
}

impl Instruction {
    /// Reads an opcode; an unknown one fails with `InvalidInstructionData`.
    pub fn try_from(tag: u8) -> (r: Result<Instruction, ProgramError>)
        ensures
            r == instruction_of(tag),
    {
        if tag == Make::DISCRIMINATOR {
            Ok(Instruction::Make)
        } else if tag == Take::DISCRIMINATOR {
            Ok(Instruction::Take)
        } else if tag == Refund::DISCRIMINATOR {
            Ok(Instruction::Refund)
        } else {
            Err(ProgramError::InvalidInstructionData)
        }
    }
}

/// What the program does with an instruction: its first byte names the
/// operation, and the rest are the arguments of a deposit.
pub open spec fn process_outcome(data: Seq<u8>, accts: Seq<AccountState>, program_id: Pubkey) -> Result<
    Seq<Effect>,
    ProgramError,
> {
    if data.len() == 0 {
        Err(ProgramError::InvalidInstructionData)
    } else {
        match instruction_of(data[0]) {
            Err(e) => Err(e),
            Ok(Instruction::Make) => make_outcome(data.subrange(1, data.len() as int), accts, program_id),
            Ok(Instruction::Take) => take_outcome(accts, program_id),
            Ok(Instruction::Refund) => refund_outcome(accts, program_id),
        }
    }
}

/// Whether a result of the program is the outcome given.
pub open spec fn is_outcome(r: Result<Vec<Effect>, ProgramError>, o: Result<Seq<Effect>, ProgramError>) -> bool {
    match r {
        Ok(v) => o == Ok::<Seq<Effect>, ProgramError>(v@),
        Err(e) => o == Err::<Seq<Effect>, ProgramError>(e),
    }
}

/// Opens an escrow: the effects of the deposit with these arguments and
/// accounts, or the error of the first check that fails.
pub fn make(data: &[u8], accounts: &[AccountInfo], program_id: &Pubkey) -> (r: Result<
    Vec<Effect>,
    ProgramError,
>)
    ensures
        is_outcome(r, make_outcome(data@, states(accounts@), *program_id)),
        r is Ok ==> ({
            let p = make_check(data@, states(accounts@), *program_id)->Ok_0;
            created_program_address(
                escrow_seeds_with_bump(accounts@[0].key@, p.0.seed, p.1),
                program_id@,
            ) == Some(accounts@[1].key@)
        }),
{
    match Make::try_from(data, accounts, program_id) {
        Ok(m) => Ok(m.process()),
        Err(e) => Err(e),
    }
}

/// Settles an escrow: the effects of the swap, or the error of the first
/// check that fails.
pub fn take(accounts: &[AccountInfo], program_id: &Pubkey) -> (r: Result<Vec<Effect>, ProgramError>)
    ensures
        is_outcome(r, take_outcome(states(accounts@), *program_id)),
{
    match Take::try_from(accounts, program_id) {
        Ok(t) => {
            let v = t.process();
            proof {
                let s = states(accounts@);
                lemma_take_effects_same(s.subrange(0, 9), s, t.vault_amount);
            }
            Ok(v)
        },
        Err(e) => Err(e),
    }
}

/// Refunds an escrow: the effects of the refund, or the error of the first
/// check that fails.
pub fn refund(accounts: &[AccountInfo], program_id: &Pubkey) -> (r: Result<Vec<Effect>, ProgramError>)
    ensures
        is_outcome(r, refund_outcome(states(accounts@), *program_id)),
{
    match Refund::try_from(accounts, program_id) {
        Ok(t) => {
            let v = t.process();
            proof {
                let s = states(accounts@);
                lemma_refund_effects_same(s.subrange(0, 5), s, t.vault_amount);
            }
            Ok(v)
        },
        Err(e) => Err(e),
    }
}

/// Runs one instruction of the escrow program: the effects that carry it
/// out, in order, or the error of the first check that fails, in which case
/// nothing is to be done.
pub fn process_instruction(
    program_id: &Pubkey,
    accounts: &[AccountInfo],
    instruction_data: &[u8],
) -> (r: Result<Vec<Effect>, ProgramError>)
    ensures
        is_outcome(r, process_outcome(instruction_data@, states(accounts@), *program_id)),
{
    if instruction_data.len() == 0 {
        return Err(ProgramError::InvalidInstructionData);
    }
    match Instruction::try_from(instruction_data[0]) {
        Err(e) => Err(e),
        Ok(Instruction::Make) => {
            let rest = slice_subrange(instruction_data, 1, instruction_data.len());
            make(rest, accounts, program_id)
        },
        Ok(Instruction::Take) => take(accounts, program_id),
        Ok(Instruction::Refund) => refund(accounts, program_id),
    }
}

} // verus!
