use vstd::prelude::*;
use crate::account::{AccountInfo, AccountState, states, pubkey_eq, token_amount, token_account_amount, is_token_account};
use crate::address::{Pubkey, lemma_pubkey_view_eq};
use crate::effect::{Authority, Effect, EscrowSigner};
use crate::error::{PinocchioError, ProgramError};
use crate::state::{Escrow, escrow_check, record_seed, record_bump, record_receive, record_mint_a, record_mint_b};

verus! {

/// The accounts that settling an escrow takes, in this order.
pub struct TakeAccounts<'a> {
    pub taker: &'a AccountInfo,
    pub maker: &'a AccountInfo,
    pub escrow: &'a AccountInfo,
    pub mint_a: &'a AccountInfo,
    pub mint_b: &'a AccountInfo,
    pub vault: &'a AccountInfo,
    pub taker_ata_a: &'a AccountInfo,
    pub taker_ata_b: &'a AccountInfo,
    pub maker_ata_b: &'a AccountInfo,
    pub system_program: &'a AccountInfo,
    pub token_program: &'a AccountInfo,
}

/// The outcome of checking the accounts of a settlement: there are at least
/// eleven, and the first, the taker, signed.
pub open spec fn take_accounts_check(accts: Seq<AccountState>) -> Result<(), ProgramError> {
    if accts.len() < 11 {
        Err(ProgramError::NotEnoughAccountKeys)
    } else if !accts[0].is_signer {
        Err(ProgramError::Custom(PinocchioError::NotSigner.spec_code()))
    } else {
        Ok(())
    }
}

impl<'a> TakeAccounts<'a> {
    /// Takes the accounts of a settlement from the list, in order.
    pub fn new(accounts: &'a [AccountInfo]) -> (r: Result<Self, ProgramError>)
        ensures
            take_accounts_check(states(accounts@)) is Ok <==> r is Ok,
            r matches Err(e) ==> take_accounts_check(states(accounts@)) == Err::<(), ProgramError>(
                e,
            ),
            r matches Ok(t) ==> *t.taker == accounts@[0] && *t.maker == accounts@[1] && *t.escrow
                == accounts@[2] && *t.mint_a == accounts@[3] && *t.mint_b == accounts@[4]
                && *t.vault == accounts@[5] && *t.taker_ata_a == accounts@[6] && *t.taker_ata_b
                == accounts@[7] && *t.maker_ata_b == accounts@[8] && *t.system_program
                == accounts@[9] && *t.token_program == accounts@[10],
    {
        if accounts.len() < 11 {
            return Err(ProgramError::NotEnoughAccountKeys);
        }
        let taker = &accounts[0];
        if !taker.is_signer {
            return Err(ProgramError::from(PinocchioError::NotSigner));
        }
        Ok(TakeAccounts {
            taker,
            maker: &accounts[1],
            escrow: &accounts[2],
            mint_a: &accounts[3],
            mint_b: &accounts[4],
            vault: &accounts[5],
            taker_ata_a: &accounts[6],
            taker_ata_b: &accounts[7],
            maker_ata_b: &accounts[8],
            system_program: &accounts[9],
            token_program: &accounts[10],
        })
    }
}

/// The outcome of checking a settlement: its accounts, the escrow record,
/// that the two mints are the record's, and that the vault is a token
/// account, whose balance comes back.
pub open spec fn take_check(accts: Seq<AccountState>, program_id: Pubkey) -> Result<u64, ProgramError> {
    match take_accounts_check(accts) {
        Err(e) => Err(e),
        Ok(_) => match escrow_check(accts[1], accts[2], program_id) {
            Err(e) => Err(e),
            Ok(_) => if accts[3].key@ != record_mint_a(accts[2].data) || accts[4].key@
                != record_mint_b(accts[2].data) {
                Err(ProgramError::InvalidAccountData)
            } else if !is_token_account(accts[5]) {
                Err(ProgramError::InvalidAccountData)
            } else {
                Ok(token_amount(accts[5].data))
            },
        },
    }
}

/// The effects of a settlement that passed its checks, with the vault's
/// balance: the token accounts of the taker for the first mint and of the
/// maker for the second are created where absent, the whole vault goes to
/// the taker, the vault is closed, the amount asked for goes from the taker
/// to the maker, and the escrow account is released.
#[verifier::opaque]
pub open spec fn take_effects(accts: Seq<AccountState>, vault_amount: u64) -> Seq<Effect> {
    let taker = accts[0].key;
    let maker = accts[1].key;
    let escrow = accts[2].key;
    let d = accts[2].data;
    let vault = accts[5].key;
    let signer = Authority::Escrow(
        EscrowSigner { address: escrow, maker, seed: record_seed(d), bump: record_bump(d) },
    );
    seq![
        Effect::CreateAssociatedTokenAccount {
            funding: taker,
            account: accts[6].key,
            wallet: taker,
            mint: accts[3].key,
            if_absent: true,
        },
        Effect::CreateAssociatedTokenAccount {
            funding: taker,
            account: accts[8].key,
            wallet: maker,
            mint: accts[4].key,
            if_absent: true,
        },
        Effect::Transfer { from: vault, to: accts[6].key, authority: signer, amount: vault_amount },
        Effect::CloseTokenAccount { account: vault, destination: maker, authority: signer },
        Effect::Transfer {
            from: accts[7].key,
            to: accts[8].key,
            authority: Authority::Signature(taker),
            amount: record_receive(d),
        },
        Effect::CloseProgramAccount { account: escrow, destination: maker },
    ]
}

/// The effects of a settlement depend on the first nine accounts only.
pub proof fn lemma_take_effects_same(s1: Seq<AccountState>, s2: Seq<AccountState>, amount: u64)
    requires
        s1.len() >= 9,
        s2.len() >= 9,
        forall|i: int| 0 <= i < 9 ==> s1[i] == s2[i],
    ensures
        take_effects(s1, amount) == take_effects(s2, amount),
{
    reveal(take_effects);
    assert(s1[0] == s2[0] && s1[1] == s2[1] && s1[2] == s2[2] && s1[3] == s2[3]);
    assert(s1[4] == s2[4] && s1[5] == s2[5] && s1[6] == s2[6] && s1[7] == s2[7]);
    assert(s1[8] == s2[8]);
}

/// Nine accounts, taken in order from the front of a list, have the states
/// that the list's first nine have.
pub proof fn lemma_states_prefix(accounts: Seq<AccountInfo>, prefix: Seq<AccountState>)
    requires
        accounts.len() >= 9,
        prefix == seq![
            accounts[0]@,
            accounts[1]@,
            accounts[2]@,
            accounts[3]@,
            accounts[4]@,
            accounts[5]@,
            accounts[6]@,
            accounts[7]@,
            accounts[8]@,
        ],
    ensures
        prefix == states(accounts).subrange(0, 9),
{
    assert(prefix =~= states(accounts).subrange(0, 9));
}

/// What a settlement does: its effects, or the error of the first check
/// that fails.
pub open spec fn take_outcome(accts: Seq<AccountState>, program_id: Pubkey) -> Result<
    Seq<Effect>,
    ProgramError,
> {
    match take_check(accts, program_id) {
        Err(e) => Err(e),
        Ok(amount) => Ok(take_effects(accts, amount)),
    }
}

/// A checked settlement.
pub struct Take<'a> {
    pub accounts: TakeAccounts<'a>,
    pub escrow: Escrow,
    pub vault_amount: u64,
}

impl<'a> Take<'a> {
    pub const DISCRIMINATOR: u8 = 1;

    /// The states of the accounts that the effects speak of.
    pub open spec fn spec_states(&self) -> Seq<AccountState> {
        let a = self.accounts;
        seq![
            a.taker@,
            a.maker@,
            a.escrow@,
            a.mint_a@,
            a.mint_b@,
            a.vault@,
            a.taker_ata_a@,
            a.taker_ata_b@,
            a.maker_ata_b@,
        ]
    }

    /// Checks a settlement: the accounts, the escrow record against its
    /// maker and the program, the two mints, and the vault.
    pub fn try_from(accounts: &'a [AccountInfo], program_id: &Pubkey) -> (r: Result<Self, ProgramError>)
        ensures
            take_check(states(accounts@), *program_id) is Ok <==> r is Ok,
            r matches Err(e) ==> take_check(states(accounts@), *program_id) == Err::<u64, ProgramError>(e),
            r matches Ok(t) ==> take_check(states(accounts@), *program_id) == Ok::<u64, ProgramError>(
                t.vault_amount,
            ) && t.spec_states() == states(accounts@).subrange(0, 9) && t.escrow.seed == record_seed(
                t.accounts.escrow.data@,
            ) && t.escrow.bump == record_bump(t.accounts.escrow.data@) && t.escrow.receive
                == record_receive(t.accounts.escrow.data@),
    {
        let a = match TakeAccounts::new(accounts) {
            Ok(a) => a,
            Err(e) => return Err(e),
        };
        let escrow = match Escrow::load_checked(a.maker, a.escrow, program_id) {
            Ok(e) => e,
            Err(e) => return Err(e),
        };
        proof {
            lemma_pubkey_view_eq(a.mint_a.key, escrow.mint_a);
            lemma_pubkey_view_eq(a.mint_b.key, escrow.mint_b);
        }
        if !pubkey_eq(&a.mint_a.key, &escrow.mint_a) || !pubkey_eq(&a.mint_b.key, &escrow.mint_b) {
            return Err(ProgramError::InvalidAccountData);
        }
        let vault_amount = match token_account_amount(a.vault) {
            Ok(v) => v,
            Err(e) => return Err(e),
        };
        let t = Take { accounts: a, escrow, vault_amount };
        proof {
            lemma_states_prefix(accounts@, t.spec_states());
        }
        Ok(t)
    }

    /// The effects that carry out this settlement.
    pub fn process(&self) -> (r: Vec<Effect>)
        requires
            self.escrow.seed == record_seed(self.accounts.escrow.data@),
            self.escrow.bump == record_bump(self.accounts.escrow.data@),
            self.escrow.receive == record_receive(self.accounts.escrow.data@),
        ensures
            r@ == take_effects(self.spec_states(), self.vault_amount),
    {
        let a = &self.accounts;
        let signer = Authority::Escrow(
            EscrowSigner {
                address: a.escrow.key,
                maker: a.maker.key,
                seed: self.escrow.seed,
                bump: self.escrow.bump,
            },
        );
        let r = vec![
            Effect::CreateAssociatedTokenAccount {
                funding: a.taker.key,
                account: a.taker_ata_a.key,
                wallet: a.taker.key,
                mint: a.mint_a.key,
                if_absent: true,
            },
            Effect::CreateAssociatedTokenAccount {
                funding: a.taker.key,
                account: a.maker_ata_b.key,
                wallet: a.maker.key,
                mint: a.mint_b.key,
                if_absent: true,
            },
            Effect::Transfer {
                from: a.vault.key,
                to: a.taker_ata_a.key,
                authority: signer,
                amount: self.vault_amount,
            },
            Effect::CloseTokenAccount { account: a.vault.key, destination: a.maker.key, authority: signer },
            Effect::Transfer {
                from: a.taker_ata_b.key,
                to: a.maker_ata_b.key,
                authority: Authority::Signature(a.taker.key),
                amount: self.escrow.receive,
            },
            Effect::CloseProgramAccount { account: a.escrow.key, destination: a.maker.key },
        ];
        proof {
            reveal(take_effects);
        }
        assert(r@ =~= take_effects(self.spec_states(), self.vault_amount));
        r
    }
}

} // verus!
