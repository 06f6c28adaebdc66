use vstd::prelude::*;
use crate::address::{Pubkey, u64_from_le, read_u64_le, lemma_pubkey_view_eq};
use crate::error::ProgramError;

verus! {

/// What the program reads of an account that a transaction hands it.
pub struct AccountInfo {
    /// The account's address.
    pub key: Pubkey,
    /// The program that owns the account.
    pub owner: Pubkey,
    /// Whether the account signed the transaction.
    pub is_signer: bool,
    /// Whether the transaction lets the account be written.
    pub is_writable: bool,
    /// The account's data.
    pub data: Vec<u8>,
}

/// The value of an `AccountInfo`, with its data as a sequence.
pub struct AccountState {
    pub key: Pubkey,
    pub owner: Pubkey,
    pub is_signer: bool,
    pub is_writable: bool,
    pub data: Seq<u8>,
}

impl View for AccountInfo {
    type V = AccountState;

    open spec fn view(&self) -> AccountState {
        AccountState {
            key: self.key,
            owner: self.owner,
            is_signer: self.is_signer,
            is_writable: self.is_writable,
            data: self.data@,
        }
    }
}

/// The states of a list of accounts.
pub open spec fn states(accounts: Seq<AccountInfo>) -> Seq<AccountState> {
    accounts.map_values(|a: AccountInfo| a@)
}

/// Whether two addresses are equal.
pub fn pubkey_eq(a: &Pubkey, b: &Pubkey) -> (r: bool)
    ensures
        r == (*a == *b),
{
    let mut i: usize = 0;
    while i < 32
        invariant
            i <= 32,
            forall|j: int| 0 <= j < i ==> a@[j] == b@[j],
        decreases 32 - i,
    {
        if a[i] != b[i] {
            return false;
        }
        i = i + 1;
    }
    assert(*a =~= *b);
    true
}

/// The size of a token account.
pub const TOKEN_ACCOUNT_LEN: usize = 165;

/// The size of a mint.
pub const MINT_LEN: usize = 82;

/// The kind of mint that the extended token program marks with this byte at
/// the start of an account of another size.
pub const TOKEN_2022_MINT_DISCRIMINATOR: u8 = 2;

/// The address of the token program.
pub open spec fn token_program_id() -> Seq<u8> {
    seq![
        6u8, 221u8, 246u8, 225u8, 215u8, 101u8, 161u8, 147u8, 217u8, 203u8, 225u8, 70u8, 206u8,
        235u8, 121u8, 172u8, 28u8, 180u8, 133u8, 237u8, 95u8, 91u8, 55u8, 145u8, 58u8, 140u8,
        245u8, 133u8, 126u8, 255u8, 0u8, 169u8,
    ]
}

/// The address of the extended token program.
pub open spec fn token_2022_program_id() -> Seq<u8> {
    seq![
        6u8, 221u8, 246u8, 225u8, 238u8, 117u8, 143u8, 222u8, 24u8, 66u8, 93u8, 188u8, 228u8,
        108u8, 205u8, 218u8, 182u8, 26u8, 252u8, 77u8, 131u8, 185u8, 13u8, 39u8, 254u8, 189u8,
        249u8, 40u8, 216u8, 161u8, 139u8, 252u8,
    ]
}

/// The address of the token program.
pub fn token_program(
) -> (r: Pubkey)
    ensures
        r@ == token_program_id(),
{
    let r: Pubkey = [
        6, 221, 246, 225, 215, 101, 161, 147, 217, 203, 225, 70, 206, 235, 121, 172, 28, 180, 133,
        237, 95, 91, 55, 145, 58, 140, 245, 133, 126, 255, 0, 169,
    ];
    assert(r@ =~= token_program_id());
    r
}

/// The address of the extended token program.
pub fn token_2022_program() -> (r: Pubkey)
    ensures
        r@ == token_2022_program_id(),
{
    let r: Pubkey = [
        6, 221, 246, 225, 238, 117, 143, 222, 24, 66, 93, 188, 228, 108, 205, 218, 182, 26, 252,
        77, 131, 185, 13, 39, 254, 189, 249, 40, 216, 161, 139, 252,
    ];
    assert(r@ =~= token_2022_program_id());
    r
}

/// The outcome of checking that an account with this owner and data is a
/// mint of one of the two token programs.
pub open spec fn mint_check(owner: Seq<u8>, data: Seq<u8>) -> Result<(), ProgramError> {
    if owner != token_2022_program_id() {
        if owner != token_program_id() {
            Err(ProgramError::InvalidAccountOwner)
        } else if data.len() != MINT_LEN {
            Err(ProgramError::InvalidAccountData)
        } else {
            Ok(())
        }
    } else if data.len() != MINT_LEN && (data.len() == 0 || data[0]
        != TOKEN_2022_MINT_DISCRIMINATOR) {
        Err(ProgramError::InvalidAccountData)
    } else {
        Ok(())
    }
}

/// Checks that `account` is a mint: an account of the token program of the
/// size of a mint, or an account of the extended token program that is of
/// that size or starts with the mint's discriminator.
pub fn check_mint(account: &AccountInfo) -> (r: Result<(), ProgramError>)
    ensures
        r == mint_check(account.owner@, account.data@),
{
    let legacy = token_program();
    let extended = token_2022_program();
    proof {
        lemma_pubkey_view_eq(account.owner, extended);
        lemma_pubkey_view_eq(account.owner, legacy);
    }
    if !pubkey_eq(&account.owner, &extended) {
        if !pubkey_eq(&account.owner, &legacy) {
            Err(ProgramError::InvalidAccountOwner)
        } else if account.data.len() != MINT_LEN {
            Err(ProgramError::InvalidAccountData)
        } else {
            Ok(())
        }
    } else if account.data.len() != MINT_LEN && (account.data.len() == 0 || account.data[0]
        != TOKEN_2022_MINT_DISCRIMINATOR) {
        Err(ProgramError::InvalidAccountData)
    } else {
        Ok(())
    }
}

/// Whether the account is a token account: owned by the token program and of
/// the size of a token account.
pub open spec fn is_token_account(a: AccountState) -> bool {
    a.data.len() == TOKEN_ACCOUNT_LEN && a.owner@ == token_program_id()
}

/// The number of tokens that a token account with this data holds.
pub open spec fn token_amount(data: Seq<u8>) -> u64 {
    u64_from_le(data.subrange(64, 72))
}

/// Reads the balance of a token account.
///
/// Fails with `InvalidAccountData` where the account is not a token
/// account: of another size, or not owned by the token program.
pub fn token_account_amount(account: &AccountInfo) -> (r: Result<u64, ProgramError>)
    ensures
        is_token_account(account@) ==> r == Ok::<u64, ProgramError>(token_amount(account.data@)),
        !is_token_account(account@) ==> r == Err::<u64, ProgramError>(
            ProgramError::InvalidAccountData,
        ),
{
    if account.data.len() != TOKEN_ACCOUNT_LEN {
        return Err(ProgramError::InvalidAccountData);
    }
    let token = token_program();
    proof {
        lemma_pubkey_view_eq(account.owner, token);
    }
    if !pubkey_eq(&account.owner, &token) {
        return Err(ProgramError::InvalidAccountData);
    }
    Ok(read_u64_le(account.data.as_slice(), 64))
}

} // verus!
