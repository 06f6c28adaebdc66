use blueshift_escrow::account::{check_mint, token_2022_program, token_account_amount, token_program, AccountInfo};
use blueshift_escrow::address::{create_escrow_address, escrow_seeds_of, find_escrow_address, u64_to_le, Pubkey};
use blueshift_escrow::effect::{Authority, Effect, EscrowSigner};
use blueshift_escrow::error::{PinocchioError, ProgramError};
use blueshift_escrow::make::{Make, MakeAccounts, MakeInstructionData};
use blueshift_escrow::processor::{make, process_instruction, refund, take, Instruction};
use blueshift_escrow::state::Escrow;

fn key(b: u8) -> Pubkey {
    [b; 32]
}

const PROGRAM: u8 = 0xE5;
const MAKER: u8 = 0xA1;
const TAKER: u8 = 0xB2;
const MINT_X: u8 = 0x11;
const MINT_Y: u8 = 0x22;

fn account(k: Pubkey, owner: Pubkey, is_signer: bool, data: Vec<u8>) -> AccountInfo {
    AccountInfo { key: k, owner, is_signer, is_writable: true, data }
}

fn plain(b: u8) -> AccountInfo {
    account(key(b), [0u8; 32], false, Vec::new())
}

fn mint_account(b: u8) -> AccountInfo {
    account(key(b), token_program(), false, vec![0u8; 82])
}

fn token_account(b: u8, amount: u64) -> AccountInfo {
    let mut data = vec![0u8; 165];
    data[64..72].copy_from_slice(&amount.to_le_bytes());
    account(key(b), token_program(), false, data)
}

fn make_data(seed: u64, receive: u64, amount: u64) -> Vec<u8> {
    let mut d = Vec::new();
    d.extend_from_slice(&seed.to_le_bytes());
    d.extend_from_slice(&receive.to_le_bytes());
    d.extend_from_slice(&amount.to_le_bytes());
    d
}

fn escrow_of(maker: Pubkey, seed: u64) -> (Pubkey, u8) {
    find_escrow_address(&maker, seed, &key(PROGRAM)).expect("an escrow address exists")
}

fn make_accounts(escrow: Pubkey, maker_signs: bool) -> Vec<AccountInfo> {
    vec![
        account(key(MAKER), [0u8; 32], maker_signs, Vec::new()),
        account(escrow, [0u8; 32], false, Vec::new()),
        mint_account(MINT_X),
        mint_account(MINT_Y),
        token_account(0x31, 5000),
        plain(0x32),
        plain(0x33),
        plain(0x34),
    ]
}

fn stored_escrow(escrow: Pubkey, seed: u64, bump: u8, receive: u64) -> AccountInfo {
    let record = Escrow::new(seed, key(MAKER), key(MINT_X), key(MINT_Y), receive, bump);
    account(escrow, key(PROGRAM), false, record.to_bytes())
}

fn take_accounts(escrow: AccountInfo, vault_amount: u64) -> Vec<AccountInfo> {
    vec![
        account(key(TAKER), [0u8; 32], true, Vec::new()),
        plain(MAKER),
        escrow,
        mint_account(MINT_X),
        mint_account(MINT_Y),
        token_account(0x32, vault_amount),
        plain(0x41),
        token_account(0x42, 800),
        plain(0x43),
        plain(0x33),
        plain(0x34),
    ]
}

fn refund_accounts(escrow: AccountInfo, vault_amount: u64) -> Vec<AccountInfo> {
    vec![
        account(key(MAKER), [0u8; 32], true, Vec::new()),
        escrow,
        mint_account(MINT_X),
        token_account(0x31, 0),
        token_account(0x32, vault_amount),
        plain(0x33),
        plain(0x34),
    ]
}

#[test]
fn parses_make_arguments() {
    let d = make_data(7, 500, 1000);
    let args = MakeInstructionData::new(&d).unwrap();
    assert_eq!(args, MakeInstructionData { seed: 7, receive: 500, amount: 1000 });
}

#[test]
fn rejects_make_data_of_wrong_length() {
    let d = make_data(7, 500, 1000);
    assert_eq!(MakeInstructionData::new(&d[..23]), Err(ProgramError::InvalidInstructionData));
    let mut longer = d.clone();
    longer.push(0);
    assert_eq!(MakeInstructionData::new(&longer), Err(ProgramError::InvalidInstructionData));
}

#[test]
fn rejects_zero_deposit() {
    let d = make_data(7, 500, 0);
    assert_eq!(MakeInstructionData::new(&d), Err(ProgramError::InvalidInstructionData));
    let (escrow, _) = escrow_of(key(MAKER), 7);
    assert_eq!(
        make(&d, &make_accounts(escrow, true), &key(PROGRAM)),
        Err(ProgramError::InvalidInstructionData)
    );
}

#[test]
fn rejects_zero_receive() {
    let d = make_data(7, 0, 1000);
    assert_eq!(MakeInstructionData::new(&d), Err(ProgramError::InvalidInstructionData));
}

#[test]
fn record_round_trips_through_its_bytes() {
    let e = Escrow::new(7, key(MAKER), key(MINT_X), key(MINT_Y), 500, 254);
    let bytes = e.to_bytes();
    assert_eq!(bytes.len(), Escrow::LEN);
    assert_eq!(&bytes[0..8], &7u64.to_le_bytes());
    assert_eq!(&bytes[8..40], &key(MAKER));
    assert_eq!(&bytes[104..112], &500u64.to_le_bytes());
    assert_eq!(bytes[112], 254);
    assert_eq!(Escrow::load(&bytes), Ok(e));
}

#[test]
fn record_load_rejects_bad_bytes() {
    let e = Escrow::new(7, key(MAKER), key(MINT_X), key(MINT_Y), 500, 254);
    let bytes = e.to_bytes();
    assert_eq!(Escrow::load(&bytes[..119]), Err(ProgramError::InvalidAccountData));
    assert_eq!(Escrow::load(&[]), Err(ProgramError::InvalidAccountData));
    let mut padded = bytes.clone();
    padded[119] = 1;
    assert_eq!(Escrow::load(&padded), Err(ProgramError::InvalidAccountData));
}

#[test]
fn set_inner_keeps_padding() {
    let mut e = Escrow::new(1, key(1), key(2), key(3), 4, 5);
    e.set_inner(7, key(MAKER), key(MINT_X), key(MINT_Y), 500, 9);
    assert_eq!(e, Escrow::new(7, key(MAKER), key(MINT_X), key(MINT_Y), 500, 9));
}

#[test]
fn derivation_is_deterministic_and_distinct() {
    let a = escrow_of(key(MAKER), 7);
    assert_eq!(a, escrow_of(key(MAKER), 7));
    assert_ne!(a.0, escrow_of(key(TAKER), 7).0);
    assert_ne!(a.0, escrow_of(key(MAKER), 8).0);
    assert_ne!(a.0, key(MAKER));
}

#[test]
fn created_address_confirms_found_one() {
    let (addr, bump) = escrow_of(key(MAKER), 7);
    assert_eq!(create_escrow_address(&key(MAKER), 7, bump, &key(PROGRAM)), Some(addr));
    let other = create_escrow_address(&key(MAKER), 8, bump, &key(PROGRAM));
    assert_ne!(other, Some(addr));
}

#[test]
fn escrow_seeds_are_tag_maker_and_seed() {
    let seeds = escrow_seeds_of(&key(MAKER), 7);
    assert_eq!(seeds, vec![b"escrow".to_vec(), key(MAKER).to_vec(), 7u64.to_le_bytes().to_vec()]);
    assert_eq!(u64_to_le(0x0102030405060708), vec![8, 7, 6, 5, 4, 3, 2, 1]);
    let signer = EscrowSigner { address: key(0x55), maker: key(MAKER), seed: 7, bump: 3 };
    let mut expected = seeds.clone();
    expected.push(vec![3]);
    assert_eq!(signer.signer_seeds(), expected);
}

#[test]
fn token_program_ids_match_the_token_crate() {
    assert_eq!(token_program(), pinocchio_token::ID.to_bytes());
    let extended = solana_address::Address::from_str_const("TokenzQdBNbLqP5VEhdkAS6EPFLC1PHnBqCXEpPxuEb");
    assert_eq!(token_2022_program(), extended.to_bytes());
}

#[test]
fn mint_check_accepts_and_rejects() {
    assert_eq!(check_mint(&mint_account(MINT_X)), Ok(()));
    let wrong_owner = account(key(MINT_X), key(9), false, vec![0u8; 82]);
    assert_eq!(check_mint(&wrong_owner), Err(ProgramError::InvalidAccountOwner));
    let wrong_size = account(key(MINT_X), token_program(), false, vec![0u8; 83]);
    assert_eq!(check_mint(&wrong_size), Err(ProgramError::InvalidAccountData));
    let mut extended = vec![0u8; 200];
    extended[0] = 2;
    assert_eq!(check_mint(&account(key(MINT_X), token_2022_program(), false, extended.clone())), Ok(()));
    extended[0] = 1;
    assert_eq!(
        check_mint(&account(key(MINT_X), token_2022_program(), false, extended)),
        Err(ProgramError::InvalidAccountData)
    );
    assert_eq!(
        check_mint(&account(key(MINT_X), token_2022_program(), false, Vec::new())),
        Err(ProgramError::InvalidAccountData)
    );
}

#[test]
fn reads_vault_balance() {
    assert_eq!(token_account_amount(&token_account(1, 1000)), Ok(1000));
    assert_eq!(token_account_amount(&plain(1)), Err(ProgramError::InvalidAccountData));
    let look_alike = account(key(1), key(9), false, token_account(1, 1000).data);
    assert_eq!(token_account_amount(&look_alike), Err(ProgramError::InvalidAccountData));
}

#[test]
fn make_lists_its_effects() {
    let (escrow, bump) = escrow_of(key(MAKER), 7);
    let mut d = vec![0u8];
    d.extend_from_slice(&make_data(7, 500, 1000));
    let effects = process_instruction(&key(PROGRAM), &make_accounts(escrow, true), &d).unwrap();
    let signer = EscrowSigner { address: escrow, maker: key(MAKER), seed: 7, bump };
    assert_eq!(
        effects,
        vec![
            Effect::CreateAccount {
                payer: key(MAKER),
                account: escrow,
                space: 120,
                owner: key(PROGRAM),
                signer,
            },
            Effect::CreateAssociatedTokenAccount {
                funding: key(MAKER),
                account: key(0x32),
                wallet: escrow,
                mint: key(MINT_X),
                if_absent: false,
            },
            Effect::WriteEscrow {
                account: escrow,
                seed: 7,
                maker: key(MAKER),
                mint_a: key(MINT_X),
                mint_b: key(MINT_Y),
                receive: 500,
                bump,
            },
            Effect::Transfer {
                from: key(0x31),
                to: key(0x32),
                authority: Authority::Signature(key(MAKER)),
                amount: 1000,
            },
        ]
    );
}

#[test]
fn make_errors() {
    let (escrow, _) = escrow_of(key(MAKER), 7);
    let d = make_data(7, 500, 1000);
    assert_eq!(
        make(&d, &make_accounts(escrow, false), &key(PROGRAM)),
        Err(ProgramError::Custom(PinocchioError::NotSigner.code()))
    );
    assert_eq!(make(&d, &make_accounts(escrow, true)[..7], &key(PROGRAM)), Err(ProgramError::NotEnoughAccountKeys));
    assert_eq!(make(&d, &make_accounts(key(0x77), true), &key(PROGRAM)), Err(ProgramError::InvalidAccountData));
    let (other_seed, _) = escrow_of(key(MAKER), 8);
    assert_eq!(make(&d, &make_accounts(other_seed, true), &key(PROGRAM)), Err(ProgramError::InvalidAccountData));
}

#[test]
fn opcodes() {
    assert_eq!(Instruction::try_from(0), Ok(Instruction::Make));
    assert_eq!(Instruction::try_from(1), Ok(Instruction::Take));
    assert_eq!(Instruction::try_from(2), Ok(Instruction::Refund));
    assert_eq!(Instruction::try_from(3), Err(ProgramError::InvalidInstructionData));
    assert_eq!(process_instruction(&key(PROGRAM), &[], &[]), Err(ProgramError::InvalidInstructionData));
    assert_eq!(process_instruction(&key(PROGRAM), &[], &[9]), Err(ProgramError::InvalidInstructionData));
    assert_eq!(process_instruction(&key(PROGRAM), &[], &[1]), Err(ProgramError::NotEnoughAccountKeys));
}

#[test]
fn end_to_end_make_then_take() {
    let (escrow, bump) = escrow_of(key(MAKER), 7);
    let mut d = vec![0u8];
    d.extend_from_slice(&make_data(7, 500, 1000));
    let made = process_instruction(&key(PROGRAM), &make_accounts(escrow, true), &d).unwrap();
    let Effect::WriteEscrow { seed, maker, mint_a, mint_b, receive, bump: b, .. } = made[2] else {
        panic!("the third effect writes the record")
    };
    let record = Escrow::new(seed, maker, mint_a, mint_b, receive, b);
    assert_eq!(record, Escrow::new(7, key(MAKER), key(MINT_X), key(MINT_Y), 500, bump));
    let stored = account(escrow, key(PROGRAM), false, record.to_bytes());

    let effects = process_instruction(&key(PROGRAM), &take_accounts(stored, 1000), &[1]).unwrap();
    let signer = Authority::Escrow(EscrowSigner { address: escrow, maker: key(MAKER), seed: 7, bump });
    assert_eq!(
        effects,
        vec![
            Effect::CreateAssociatedTokenAccount {
                funding: key(TAKER),
                account: key(0x41),
                wallet: key(TAKER),
                mint: key(MINT_X),
                if_absent: true,
            },
            Effect::CreateAssociatedTokenAccount {
                funding: key(TAKER),
                account: key(0x43),
                wallet: key(MAKER),
                mint: key(MINT_Y),
                if_absent: true,
            },
            Effect::Transfer { from: key(0x32), to: key(0x41), authority: signer, amount: 1000 },
            Effect::CloseTokenAccount { account: key(0x32), destination: key(MAKER), authority: signer },
            Effect::Transfer {
                from: key(0x42),
                to: key(0x43),
                authority: Authority::Signature(key(TAKER)),
                amount: 500,
            },
            Effect::CloseProgramAccount { account: escrow, destination: key(MAKER) },
        ]
    );
}

#[test]
fn end_to_end_make_then_refund() {
    let (escrow, bump) = escrow_of(key(MAKER), 7);
    let stored = stored_escrow(escrow, 7, bump, 500);
    let effects = process_instruction(&key(PROGRAM), &refund_accounts(stored, 1000), &[2]).unwrap();
    let signer = Authority::Escrow(EscrowSigner { address: escrow, maker: key(MAKER), seed: 7, bump });
    assert_eq!(
        effects,
        vec![
            Effect::Transfer { from: key(0x32), to: key(0x31), authority: signer, amount: 1000 },
            Effect::CloseTokenAccount { account: key(0x32), destination: key(MAKER), authority: signer },
            Effect::CloseProgramAccount { account: escrow, destination: key(MAKER) },
        ]
    );
    assert!(effects.iter().all(|e| !matches!(e, Effect::Transfer { amount: 500, .. })));
}

#[test]
fn second_take_or_refund_fails() {
    let (escrow, bump) = escrow_of(key(MAKER), 7);
    assert!(take(&take_accounts(stored_escrow(escrow, 7, bump, 500), 1000), &key(PROGRAM)).is_ok());
    let released = account(escrow, [0u8; 32], false, Vec::new());
    assert_eq!(take(&take_accounts(released, 0), &key(PROGRAM)), Err(ProgramError::InvalidAccountOwner));
    let emptied = account(escrow, key(PROGRAM), false, Vec::new());
    assert_eq!(take(&take_accounts(emptied, 0), &key(PROGRAM)), Err(ProgramError::InvalidAccountData));
    let released = account(escrow, [0u8; 32], false, Vec::new());
    assert_eq!(refund(&refund_accounts(released, 0), &key(PROGRAM)), Err(ProgramError::InvalidAccountOwner));
}

#[test]
fn take_rejects_substituted_accounts() {
    let (escrow, bump) = escrow_of(key(MAKER), 7);
    let mut wrong_mint = take_accounts(stored_escrow(escrow, 7, bump, 500), 1000);
    wrong_mint[4] = mint_account(0x99);
    assert_eq!(take(&wrong_mint, &key(PROGRAM)), Err(ProgramError::InvalidAccountData));
    let mut wrong_maker = take_accounts(stored_escrow(escrow, 7, bump, 500), 1000);
    wrong_maker[1] = plain(0x98);
    let expected = match create_escrow_address(&key(0x98), 7, bump, &key(PROGRAM)) {
        None => ProgramError::InvalidSeeds,
        Some(_) => ProgramError::InvalidAccountOwner,
    };
    assert_eq!(take(&wrong_maker, &key(PROGRAM)), Err(expected));
    let mut not_a_vault = take_accounts(stored_escrow(escrow, 7, bump, 500), 1000);
    not_a_vault[5] = plain(0x32);
    assert_eq!(take(&not_a_vault, &key(PROGRAM)), Err(ProgramError::InvalidAccountData));
    let mut unsigned = take_accounts(stored_escrow(escrow, 7, bump, 500), 1000);
    unsigned[0].is_signer = false;
    assert_eq!(take(&unsigned, &key(PROGRAM)), Err(ProgramError::Custom(0)));
}

#[test]
fn refund_rejects_bad_mint_and_signer() {
    let (escrow, bump) = escrow_of(key(MAKER), 7);
    let mut bad_mint = refund_accounts(stored_escrow(escrow, 7, bump, 500), 1000);
    bad_mint[2] = account(key(MINT_X), key(9), false, vec![0u8; 82]);
    assert_eq!(refund(&bad_mint, &key(PROGRAM)), Err(ProgramError::InvalidAccountOwner));
    let mut unsigned = refund_accounts(stored_escrow(escrow, 7, bump, 500), 1000);
    unsigned[0].is_signer = false;
    assert_eq!(refund(&unsigned, &key(PROGRAM)), Err(ProgramError::Custom(0)));
    assert_eq!(
        refund(&refund_accounts(stored_escrow(escrow, 7, bump, 500), 1000)[..6], &key(PROGRAM)),
        Err(ProgramError::NotEnoughAccountKeys)
    );
}

#[test]
fn error_codes() {
    assert_eq!(ProgramError::from(PinocchioError::NotSigner), ProgramError::Custom(0));
    assert_eq!(ProgramError::from(PinocchioError::InvalidAddress), ProgramError::Custom(1));
}

#[test]
fn make_checks_the_found_address() {
    let accounts = make_accounts(key(0x61), true);
    let args = MakeInstructionData { seed: 7, receive: 500, amount: 1000 };
    let checked = |found| {
        let a = MakeAccounts::new(&accounts).unwrap();
        Make::with_address(a, args, found, &key(PROGRAM)).map(|m| (m.bump, m.instruction_data))
    };
    assert_eq!(checked(None), Err(ProgramError::InvalidSeeds));
    assert_eq!(checked(Some((key(0x62), 9))), Err(ProgramError::InvalidAccountData));
    assert_eq!(checked(Some((key(0x61), 9))), Ok((9, args)));
    let m = Make::with_address(MakeAccounts::new(&accounts).unwrap(), args, Some((key(0x61), 9)), &key(PROGRAM)).unwrap();
    assert_eq!(m.process()[0], Effect::CreateAccount {
        payer: key(MAKER),
        account: key(0x61),
        space: 120,
        owner: key(PROGRAM),
        signer: EscrowSigner { address: key(0x61), maker: key(MAKER), seed: 7, bump: 9 },
    });
}
