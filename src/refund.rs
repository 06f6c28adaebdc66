use vstd::prelude::*;
use crate::account::{AccountInfo, AccountState, states, pubkey_eq, check_mint, mint_check, token_amount, token_account_amount, is_token_account};
use crate::address::{Pubkey, lemma_pubkey_view_eq};
use crate::effect::{Authority, Effect, EscrowSigner};
use crate::error::{PinocchioError, ProgramError};
use crate::state::{Escrow, escrow_check, record_seed, record_bump, record_mint_a};

verus! {

/// The accounts that refunding an escrow takes, in this order.
pub struct RefundAccounts<'a> {
    pub maker: &'a AccountInfo,
    pub escrow: &'a AccountInfo,
    pub mint_a: &'a AccountInfo,
    pub maker_ata_a: &'a AccountInfo,
    pub vault: &'a AccountInfo,
    pub system_program: &'a AccountInfo,
    pub token_program: &'a AccountInfo,
}

/// The outcome of checking the accounts of a refund: there are at least
/// seven, the first, the maker, signed, and the third is a mint.
pub open spec fn refund_accounts_check(accts: Seq<AccountState>) -> Result<(), ProgramError> {
    if accts.len() < 7 {
        Err(ProgramError::NotEnoughAccountKeys)
    } else if !accts[0].is_signer {
        Err(ProgramError::Custom(PinocchioError::NotSigner.spec_code()))
    } else {
        mint_check(accts[2].owner@, accts[2].data)
    }
}

impl<'a> RefundAccounts<'a> {
    /// Takes the accounts of a refund from the list, in order, and checks the
    /// maker's signature and the mint.
    pub fn try_from(accounts: &'a [AccountInfo]) -> (r: Result<Self, ProgramError>)
        ensures
            refund_accounts_check(states(accounts@)) is Ok <==> r is Ok,
            r matches Err(e) ==> refund_accounts_check(states(accounts@)) == Err::<(), ProgramError>(
                e,
            ),
            r matches Ok(t) ==> *t.maker == accounts@[0] && *t.escrow == accounts@[1] && *t.mint_a
                == accounts@[2] && *t.maker_ata_a == accounts@[3] && *t.vault == accounts@[4]
                && *t.system_program == accounts@[5] && *t.token_program == accounts@[6],
    {
        if accounts.len() < 7 {
            return Err(ProgramError::NotEnoughAccountKeys);
        }
        let maker = &accounts[0];
        if !maker.is_signer {
            return Err(ProgramError::from(PinocchioError::NotSigner));
        }
        let mint_a = &accounts[2];
        proof {
            assert(states(accounts@)[2] == accounts@[2]@);
        }
        match check_mint(mint_a) {
            Ok(()) => {},
            Err(e) => return Err(e),
        }
        Ok(RefundAccounts {
            maker,
            escrow: &accounts[1],
            mint_a,
            maker_ata_a: &accounts[3],
            vault: &accounts[4],
            system_program: &accounts[5],
            token_program: &accounts[6],
        })
    }
}

/// The outcome of checking a refund: its accounts, the escrow record, that
/// the mint is the record's first, and that the vault is a token account,
/// whose balance comes back.
pub open spec fn refund_check(accts: Seq<AccountState>, program_id: Pubkey) -> Result<u64, ProgramError> {
    match refund_accounts_check(accts) {
        Err(e) => Err(e),
        Ok(_) => match escrow_check(accts[0], accts[1], program_id) {
            Err(e) => Err(e),
            Ok(_) => if accts[2].key@ != record_mint_a(accts[1].data) {
                Err(ProgramError::InvalidAccountData)
            } else if !is_token_account(accts[4]) {
                Err(ProgramError::InvalidAccountData)
            } else {
                Ok(token_amount(accts[4].data))
            },
        },
    }
}

/// The effects of a refund that passed its checks, with the vault's
/// balance: the whole vault goes back to the maker, the vault is closed,
/// and the escrow account is released.
#[verifier::opaque]
pub open spec fn refund_effects(accts: Seq<AccountState>, vault_amount: u64) -> Seq<Effect> {
    let maker = accts[0].key;
    let d = accts[1].data;
    let vault = accts[4].key;
    let signer = Authority::Escrow(
        EscrowSigner { address: accts[1].key, maker, seed: record_seed(d), bump: record_bump(d) },
    );
    seq![
        Effect::Transfer { from: vault, to: accts[3].key, authority: signer, amount: vault_amount },
        Effect::CloseTokenAccount { account: vault, destination: maker, authority: signer },
        Effect::CloseProgramAccount { account: accts[1].key, destination: maker },
    ]
}

/// The effects of a refund depend on the first five accounts only.
pub proof fn lemma_refund_effects_same(s1: Seq<AccountState>, s2: Seq<AccountState>, amount: u64)
    requires
        s1.len() >= 5,
        s2.len() >= 5,
        forall|i: int| 0 <= i < 5 ==> s1[i] == s2[i],
    ensures
        refund_effects(s1, amount) == refund_effects(s2, amount),
{
    reveal(refund_effects);
    assert(s1[0] == s2[0] && s1[1] == s2[1] && s1[3] == s2[3] && s1[4] == s2[4]);
}

/// Five accounts, taken in order from the front of a list, have the states
/// that the list's first five have.
pub proof fn lemma_refund_states_prefix(accounts: Seq<AccountInfo>, prefix: Seq<AccountState>)
    requires
        accounts.len() >= 5,
        prefix == seq![accounts[0]@, accounts[1]@, accounts[2]@, accounts[3]@, accounts[4]@],
    ensures
        prefix == states(accounts).subrange(0, 5),
{
    assert(prefix =~= states(accounts).subrange(0, 5));
}

/// What a refund does: its effects, or the error of the first check that
/// fails.
pub open spec fn refund_outcome(accts: Seq<AccountState>, program_id: Pubkey) -> Result<
    Seq<Effect>,
    ProgramError,
> {
    match refund_check(accts, program_id) {
        Err(e) => Err(e),
        Ok(amount) => Ok(refund_effects(accts, amount)),
    }
}

/// A checked refund.
pub struct Refund<'a> {
    pub accounts: RefundAccounts<'a>,
    pub escrow: Escrow,
    pub vault_amount: u64,
}

impl<'a> Refund<'a> {
    pub const DISCRIMINATOR: u8 = 2;

    /// The states of the accounts that the effects speak of.
    pub open spec fn spec_states(&self) -> Seq<AccountState> {
        let a = self.accounts;
        seq![a.maker@, a.escrow@, a.mint_a@, a.maker_ata_a@, a.vault@]
    }

    /// Checks a refund: the accounts, the escrow record against its maker
    /// and the program, the mint, and the vault.
    pub fn try_from(accounts: &'a [AccountInfo], program_id: &Pubkey) -> (r: Result<Self, ProgramError>)
        ensures
            refund_check(states(accounts@), *program_id) is Ok <==> r is Ok,
            r matches Err(e) ==> refund_check(states(accounts@), *program_id) == Err::<u64, ProgramError>(e),
            r matches Ok(t) ==> refund_check(states(accounts@), *program_id) == Ok::<u64, ProgramError>(
                t.vault_amount,
            ) && t.spec_states() == states(accounts@).subrange(0, 5) && t.escrow.seed
                == record_seed(t.accounts.escrow.data@) && t.escrow.bump == record_bump(
                t.accounts.escrow.data@,
            ),
    {
        let a = match RefundAccounts::try_from(accounts) {
            Ok(a) => a,
            Err(e) => return Err(e),
        };
        let escrow = match Escrow::load_checked(a.maker, a.escrow, program_id) {
            Ok(e) => e,
            Err(e) => return Err(e),
        };
        proof {
            lemma_pubkey_view_eq(a.mint_a.key, escrow.mint_a);
        }
        if !pubkey_eq(&a.mint_a.key, &escrow.mint_a) {
            return Err(ProgramError::InvalidAccountData);
        }
        let vault_amount = match token_account_amount(a.vault) {
            Ok(v) => v,
            Err(e) => return Err(e),
        };
        let t = Refund { accounts: a, escrow, vault_amount };
        proof {
            lemma_refund_states_prefix(accounts@, t.spec_states());
        }
        Ok(t)
    }

    /// The effects that carry out this refund.
    pub fn process(&self) -> (r: Vec<Effect>)
        requires
            self.escrow.seed == record_seed(self.accounts.escrow.data@),
            self.escrow.bump == record_bump(self.accounts.escrow.data@),
        ensures
            r@ == refund_effects(self.spec_states(), self.vault_amount),
    {
        let a = &self.accounts;
        let signer = Authority::Escrow(
            EscrowSigner {
                address: a.escrow.key,
                maker: a.maker.key,
                seed: self.escrow.seed,
                bump: self.escrow.bump,
            },
        );
        let r = vec![
            Effect::Transfer {
                from: a.vault.key,
                to: a.maker_ata_a.key,
                authority: signer,
                amount: self.vault_amount,
            },
            Effect::CloseTokenAccount { account: a.vault.key, destination: a.maker.key, authority: signer },
            Effect::CloseProgramAccount { account: a.escrow.key, destination: a.maker.key },
        ];
        proof {
            reveal(refund_effects);
        }
        assert(r@ =~= refund_effects(self.spec_states(), self.vault_amount));
        r
    }
}

} // verus!
