use vstd::prelude::*;
use crate::address::{Pubkey, escrow_seeds_with_bump, escrow_seeds_of, seeds_view};

verus! {

/// The program address of one escrow, by the seeds that derive it: the
/// program signs for that address by naming them.
#[derive(Clone, Copy, Debug, PartialEq, Eq)]
pub struct EscrowSigner {
    /// The escrow's address, which these seeds derive.
    pub address: Pubkey,
    pub maker: Pubkey,
    pub seed: u64,
    pub bump: u8,
}

impl EscrowSigner {
    /// The seeds, bump included, that the runtime checks the signature
    /// against.
    pub fn signer_seeds(&self) -> (r: Vec<Vec<u8>>)
        ensures
            seeds_view(r@) == escrow_seeds_with_bump(self.maker@, self.seed, self.bump),
    {
        let mut seeds = escrow_seeds_of(&self.maker, self.seed);
        let last: Vec<u8> = vec![self.bump];
        assert(last@ =~= seq![self.bump]);
        let ghost before = seeds@;
        seeds.push(last);
        assert(seeds_view(before).len() == before.len());
        assert(seeds_view(seeds@) =~= escrow_seeds_with_bump(self.maker@, self.seed, self.bump));
        seeds
    }
}

/// Who authorizes a token movement.
#[derive(Clone, Copy, Debug, PartialEq, Eq)]
pub enum Authority {
    /// An account that signed the transaction.
    Signature(Pubkey),
    /// The escrow's program address, for which the program signs.
    Escrow(EscrowSigner),
}

/// One step that the runtime carries out for the program, in the order in
/// which the program lists them.
#[derive(Clone, Copy, Debug, PartialEq, Eq)]
pub enum Effect {
    /// Allocates `account` with `space` zero bytes, owned by `owner`, paid
    /// for by `payer`; the account signs as the escrow's program address.
    CreateAccount { payer: Pubkey, account: Pubkey, space: u64, owner: Pubkey, signer: EscrowSigner },
    /// Creates `account`, the associated token account of `wallet` for
    /// `mint`, paid for by `funding`; where `if_absent` holds, an account
    /// that already exists is left as it is.
    CreateAssociatedTokenAccount {
        funding: Pubkey,
        account: Pubkey,
        wallet: Pubkey,
        mint: Pubkey,
        if_absent: bool,
    },
    /// Writes the escrow record with these fields, and zero padding, into
    /// `account`.
    WriteEscrow {
        account: Pubkey,
        seed: u64,
        maker: Pubkey,
        mint_a: Pubkey,
        mint_b: Pubkey,
        receive: u64,
        bump: u8,
    },
    /// Moves `amount` tokens from the token account `from` to `to`.
    Transfer { from: Pubkey, to: Pubkey, authority: Authority, amount: u64 },
    /// Closes the token account `account` and sends its rent to
    /// `destination`.
    CloseTokenAccount { account: Pubkey, destination: Pubkey, authority: Authority },
    /// Releases the program's account `account`: its data shrinks to nothing,
    /// the system program becomes its owner and its rent goes to
    /// `destination`.
    CloseProgramAccount { account: Pubkey, destination: Pubkey },
}

} // verus!

verus! {

/// The net number of tokens that the transfers among `effects` move into
/// the token account `account`: what comes in, less what goes out.
pub open spec fn net_flow(effects: Seq<Effect>, account: Pubkey) -> int
    decreases effects.len(),
{
    if effects.len() == 0 {
        0
    } else {
        let rest = net_flow(effects.drop_last(), account);
        match effects.last() {
            Effect::Transfer { from, to, amount, .. } => rest + (if to == account {
                amount as int
            } else {
                0
            }) - (if from == account {
                amount as int
            } else {
                0
            }),
            _ => rest,
        }
    }
}

} // verus!
