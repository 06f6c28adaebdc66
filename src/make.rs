use vstd::prelude::*;
use crate::account::{AccountInfo, AccountState, states, pubkey_eq};
use crate::address::{Pubkey, u64_from_le, read_u64_le, escrow_seeds, escrow_seeds_with_bump, found_program_address, created_program_address, find_escrow_address, lemma_pubkey_view_eq};
use crate::effect::{Authority, Effect, EscrowSigner};
use crate::error::{PinocchioError, ProgramError};
use crate::state::Escrow;

verus! {

/// The accounts that opening an escrow takes, in this order.
pub struct MakeAccounts<'a> {
    pub maker: &'a AccountInfo,
    pub escrow: &'a AccountInfo,
    pub mint_a: &'a AccountInfo,
    pub mint_b: &'a AccountInfo,
    pub maker_ata_a: &'a AccountInfo,
    pub vault: &'a AccountInfo,
    pub system_program: &'a AccountInfo,
    pub token_program: &'a AccountInfo,
}

/// The outcome of checking the accounts of a deposit: there are at least
/// eight, and the first, the maker, signed.
pub open spec fn make_accounts_check(accts: Seq<AccountState>) -> Result<(), ProgramError> {
    if accts.len() < 8 {
        Err(ProgramError::NotEnoughAccountKeys)
    } else if !accts[0].is_signer {
        Err(ProgramError::Custom(PinocchioError::NotSigner.spec_code()))
    } else {
        Ok(())
    }
}

impl<'a> MakeAccounts<'a> {
    /// Takes the accounts of a deposit from the list, in order.
    pub fn new(accounts: &'a [AccountInfo]) -> (r: Result<Self, ProgramError>)
        ensures
            make_accounts_check(states(accounts@)) is Ok <==> r is Ok,
            r matches Err(e) ==> make_accounts_check(states(accounts@)) == Err::<(), ProgramError>(
                e,
            ),
            r matches Ok(m) ==> *m.maker == accounts@[0] && *m.escrow == accounts@[1] && *m.mint_a
                == accounts@[2] && *m.mint_b == accounts@[3] && *m.maker_ata_a == accounts@[4]
                && *m.vault == accounts@[5] && *m.system_program == accounts@[6]
                && *m.token_program == accounts@[7],
    {
        if accounts.len() < 8 {
            return Err(ProgramError::NotEnoughAccountKeys);
        }
        let maker = &accounts[0];
        if !maker.is_signer {
            return Err(ProgramError::from(PinocchioError::NotSigner));
        }
        Ok(MakeAccounts {
            maker,
            escrow: &accounts[1],
            mint_a: &accounts[2],
            mint_b: &accounts[3],
            maker_ata_a: &accounts[4],
            vault: &accounts[5],
            system_program: &accounts[6],
            token_program: &accounts[7],
        })
    }
}

/// The arguments of a deposit.
#[derive(Clone, Copy, Debug, PartialEq, Eq, Structural)]
pub struct MakeInstructionData {
    /// The maker's nonce for this escrow.
    pub seed: u64,
    /// How many tokens of the second mint settle the escrow.
    pub receive: u64,
    /// How many tokens of the first mint go into the vault.
    pub amount: u64,
}

/// The arguments that these bytes give: three little-endian integers, seed,
/// receive and amount, neither of the last two zero.
pub open spec fn parse_make(data: Seq<u8>) -> Result<MakeInstructionData, ProgramError> {
    if data.len() != 24 {
        Err(ProgramError::InvalidInstructionData)
    } else {
        let args = MakeInstructionData {
            seed: u64_from_le(data.subrange(0, 8)),
            receive: u64_from_le(data.subrange(8, 16)),
            amount: u64_from_le(data.subrange(16, 24)),
        };
        if args.amount == 0 || args.receive == 0 {
            Err(ProgramError::InvalidInstructionData)
        } else {
            Ok(args)
        }
    }
}

impl MakeInstructionData {
    /// Reads the arguments of a deposit.
    ///
    /// Fails with `InvalidInstructionData` unless there are exactly 24 bytes
    /// and both amounts are above zero.
    pub fn new(data: &[u8]) -> (r: Result<Self, ProgramError>)
        ensures
            r == parse_make(data@),
    {
        if data.len() != 24 {
            return Err(ProgramError::InvalidInstructionData);
        }
        let seed = read_u64_le(data, 0);
        let receive = read_u64_le(data, 8);
        let amount = read_u64_le(data, 16);
        if amount == 0 || receive == 0 {
            return Err(ProgramError::InvalidInstructionData);
        }
        Ok(MakeInstructionData { seed, receive, amount })
    }
}

/// The outcome of checking a deposit: its accounts, its arguments, and that
/// the escrow account is at the escrow's program address, whose bump comes
/// back with the arguments.
pub open spec fn make_check(data: Seq<u8>, accts: Seq<AccountState>, program_id: Pubkey) -> Result<
    (MakeInstructionData, u8),
    ProgramError,
> {
    match make_accounts_check(accts) {
        Err(e) => Err(e),
        Ok(_) => match parse_make(data) {
            Err(e) => Err(e),
            Ok(args) => make_address_check(accts, args, found_program_address(escrow_seeds(accts[0].key@, args.seed), program_id@)),
        },
    }
}

/// The outcome of the address check of a deposit, given what the search for
/// the escrow's program address found.
pub open spec fn make_address_check(
    accts: Seq<AccountState>,
    args: MakeInstructionData,
    found: Option<(Seq<u8>, u8)>,
) -> Result<(MakeInstructionData, u8), ProgramError> {
    match found {
        None => Err(ProgramError::InvalidSeeds),
        Some(p) => if p.0 != accts[1].key@ {
            Err(ProgramError::InvalidAccountData)
        } else {
            Ok((args, p.1))
        },
    }
}

/// The effects of a deposit that passed its checks.
pub open spec fn make_effects(
    accts: Seq<AccountState>,
    program_id: Pubkey,
    args: MakeInstructionData,
    bump: u8,
) -> Seq<Effect> {
    let maker = accts[0].key;
    let escrow = accts[1].key;
    let mint_a = accts[2].key;
    let vault = accts[5].key;
    seq![
        Effect::CreateAccount {
            payer: maker,
            account: escrow,
            space: Escrow::LEN as u64,
            owner: program_id,
            signer: EscrowSigner { address: escrow, maker, seed: args.seed, bump },
        },
        Effect::CreateAssociatedTokenAccount {
            funding: maker,
            account: vault,
            wallet: escrow,
            mint: mint_a,
            if_absent: false,
        },
        Effect::WriteEscrow {
            account: escrow,
            seed: args.seed,
            maker,
            mint_a,
            mint_b: accts[3].key,
            receive: args.receive,
            bump,
        },
        Effect::Transfer {
            from: accts[4].key,
            to: vault,
            authority: Authority::Signature(maker),
            amount: args.amount,
        },
    ]
}

/// What a deposit does: its effects, or the error of the first check that
/// fails.
pub open spec fn make_outcome(data: Seq<u8>, accts: Seq<AccountState>, program_id: Pubkey) -> Result<
    Seq<Effect>,
    ProgramError,
> {
    match make_check(data, accts, program_id) {
        Err(e) => Err(e),
        Ok(p) => Ok(make_effects(accts, program_id, p.0, p.1)),
    }
}

/// A checked deposit.
pub struct Make<'a> {
    pub accounts: MakeAccounts<'a>,
    pub instruction_data: MakeInstructionData,
    pub bump: u8,
    pub program_id: Pubkey,
}

impl<'a> Make<'a> {
    pub const DISCRIMINATOR: u8 = 0;

    /// The effects of this deposit.
    pub open spec fn spec_effects(&self) -> Seq<Effect> {
        let a = self.accounts;
        make_effects(
            seq![a.maker@, a.escrow@, a.mint_a@, a.mint_b@, a.maker_ata_a@, a.vault@],
            self.program_id,
            self.instruction_data,
            self.bump,
        )
    }

    /// Checks the accounts and the arguments of a deposit, given what the
    /// search for the escrow's program address found.
    pub fn with_address(
        accounts: MakeAccounts<'a>,
        instruction_data: MakeInstructionData,
        found: Option<(Pubkey, u8)>,
        program_id: &Pubkey,
    ) -> (r: Result<Self, ProgramError>)
        ensures
            ({
                let accts = seq![accounts.maker@, accounts.escrow@];
                let f = match found {
                    Some(p) => Some((p.0@, p.1)),
                    None => None,
                };
                match make_address_check(accts, instruction_data, f) {
                    Err(e) => r == Err::<Self, ProgramError>(e),
                    Ok(p) => r matches Ok(m) && m.accounts == accounts && m.instruction_data == p.0
                        && m.bump == p.1 && m.program_id == *program_id,
                }
            }),
    {
        match found {
            None => Err(ProgramError::InvalidSeeds),
            Some(p) => {
                proof {
                    lemma_pubkey_view_eq(p.0, accounts.escrow.key);
                }
                if !pubkey_eq(&p.0, &accounts.escrow.key) {
                    Err(ProgramError::InvalidAccountData)
                } else {
                    Ok(Make { accounts, instruction_data, bump: p.1, program_id: *program_id })
                }
            },
        }
    }

    /// Checks a deposit: the accounts, the arguments, and that the escrow
    /// account is at the escrow's program address.
    pub fn try_from(data: &'a [u8], accounts: &'a [AccountInfo], program_id: &Pubkey) -> (r: Result<
        Self,
        ProgramError,
    >)
        ensures
            make_check(data@, states(accounts@), *program_id) is Ok <==> r is Ok,
            r matches Err(e) ==> make_check(data@, states(accounts@), *program_id) == Err::<
                (MakeInstructionData, u8),
                ProgramError,
            >(e),
            r matches Ok(m) ==> make_outcome(data@, states(accounts@), *program_id) == Ok::<
                Seq<Effect>,
                ProgramError,
            >(m.spec_effects()),
            r matches Ok(m) ==> created_program_address(
                escrow_seeds_with_bump(accounts@[0].key@, m.instruction_data.seed, m.bump),
                program_id@,
            ) == Some(accounts@[1].key@),
            r matches Ok(m) ==> *m.accounts.maker == accounts@[0] && *m.accounts.escrow
                == accounts@[1] && *m.accounts.mint_a == accounts@[2] && *m.accounts.mint_b
                == accounts@[3] && *m.accounts.maker_ata_a == accounts@[4] && *m.accounts.vault
                == accounts@[5] && *m.accounts.system_program == accounts@[6]
                && *m.accounts.token_program == accounts@[7] && m.program_id == *program_id,
            r matches Ok(m) ==> make_check(data@, states(accounts@), *program_id) == Ok::<
                (MakeInstructionData, u8),
                ProgramError,
            >((m.instruction_data, m.bump)),
    {
        let accts = match MakeAccounts::new(accounts) {
            Ok(a) => a,
            Err(e) => return Err(e),
        };
        let args = match MakeInstructionData::new(data) {
            Ok(a) => a,
            Err(e) => return Err(e),
        };
        let found = find_escrow_address(&accts.maker.key, args.seed, program_id);
        let r = Make::with_address(accts, args, found, program_id);
        r
    }

    /// The effects that carry out this deposit: the escrow account is
    /// allocated at its program address and owned by the program, the vault
    /// is created as the escrow's token account for the first mint, the
    /// record is written, and the amount moves from the maker to the vault.
    pub fn process(&self) -> (r: Vec<Effect>)
        ensures
            r@ == self.spec_effects(),
    {
        let a = &self.accounts;
        let signer = EscrowSigner {
            address: a.escrow.key,
            maker: a.maker.key,
            seed: self.instruction_data.seed,
            bump: self.bump,
        };
        let r = vec![
            Effect::CreateAccount {
                payer: a.maker.key,
                account: a.escrow.key,
                space: Escrow::LEN as u64,
                owner: self.program_id,
                signer,
            },
            Effect::CreateAssociatedTokenAccount {
                funding: a.maker.key,
                account: a.vault.key,
                wallet: a.escrow.key,
                mint: a.mint_a.key,
                if_absent: false,
            },
            Effect::WriteEscrow {
                account: a.escrow.key,
                seed: self.instruction_data.seed,
                maker: a.maker.key,
                mint_a: a.mint_a.key,
                mint_b: a.mint_b.key,
                receive: self.instruction_data.receive,
                bump: self.bump,
            },
            Effect::Transfer {
                from: a.maker_ata_a.key,
                to: a.vault.key,
                authority: Authority::Signature(a.maker.key),
                amount: self.instruction_data.amount,
            },
        ];
        assert(r@ =~= self.spec_effects());
        r
    }
}

} // verus!
