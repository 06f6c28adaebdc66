//! What the three operations guarantee together, over their outcomes.
use vstd::prelude::*;
use crate::account::{AccountState, token_amount, mint_check, is_token_account};
use crate::address::{Pubkey, u64_from_le, le_bytes, escrow_seeds, escrow_seeds_with_bump, escrow_tag, found_program_address, created_program_address};
use crate::effect::{Authority, Effect, EscrowSigner, net_flow};
use crate::error::ProgramError;
use crate::make::{MakeInstructionData, make_outcome, make_check, make_accounts_check, make_effects, parse_make};
use crate::refund::{refund_outcome, refund_check, refund_effects};
use crate::state::{escrow_check, Escrow, lemma_escrow_fields, record_seed, record_bump, record_receive, record_mint_a, record_mint_b};
use crate::take::{take_outcome, take_check, take_effects};

verus! {

/// A deposit that passes its checks writes a record whose fields are its
/// arguments and accounts, creates the vault anew, and moves exactly the
/// deposited amount from the maker's token account into the vault; both
/// amounts are above zero and are the ones that the instruction bytes hold.
pub proof fn lemma_make_records_arguments(
    data: Seq<u8>,
    accts: Seq<AccountState>,
    program_id: Pubkey,
)
    requires
        make_outcome(data, accts, program_id) is Ok,
        accts[4].key != accts[5].key,
    ensures
        ({
            let effects = make_outcome(data, accts, program_id)->Ok_0;
            let args = parse_make(data)->Ok_0;
            let bump = make_check(data, accts, program_id)->Ok_0.1;
            &&& parse_make(data) is Ok
            &&& args.seed == u64_from_le(data.subrange(0, 8))
            &&& args.receive == u64_from_le(data.subrange(8, 16))
            &&& args.amount == u64_from_le(data.subrange(16, 24))
            &&& args.receive > 0 && args.amount > 0
            &&& effects.contains(
                Effect::WriteEscrow {
                    account: accts[1].key,
                    seed: args.seed,
                    maker: accts[0].key,
                    mint_a: accts[2].key,
                    mint_b: accts[3].key,
                    receive: args.receive,
                    bump,
                },
            )
            &&& effects.contains(
                Effect::CreateAssociatedTokenAccount {
                    funding: accts[0].key,
                    account: accts[5].key,
                    wallet: accts[1].key,
                    mint: accts[2].key,
                    if_absent: false,
                },
            )
            &&& net_flow(effects, accts[5].key) == args.amount
            &&& net_flow(effects, accts[4].key) == -args.amount
        }),
{
    let effects = make_outcome(data, accts, program_id)->Ok_0;
    let args = parse_make(data)->Ok_0;
    let bump = make_check(data, accts, program_id)->Ok_0.1;
    assert(effects == make_effects(accts, program_id, args, bump));
    assert(effects[2] == Effect::WriteEscrow {
        account: accts[1].key,
        seed: args.seed,
        maker: accts[0].key,
        mint_a: accts[2].key,
        mint_b: accts[3].key,
        receive: args.receive,
        bump,
    });
    assert(effects[1] == Effect::CreateAssociatedTokenAccount {
        funding: accts[0].key,
        account: accts[5].key,
        wallet: accts[1].key,
        mint: accts[2].key,
        if_absent: false,
    });
    reveal_with_fuel(net_flow, 5);
    assert(effects.drop_last().drop_last().drop_last().drop_last() =~= Seq::<Effect>::empty());
    assert(effects.drop_last().drop_last().drop_last() =~= seq![effects[0]]);
    assert(effects.drop_last().drop_last() =~= seq![effects[0], effects[1]]);
    assert(effects.drop_last() =~= seq![effects[0], effects[1], effects[2]]);
}

/// A deposit of zero tokens fails, and so allocates nothing; where its
/// accounts pass their checks, it fails as malformed instruction data.
pub proof fn lemma_make_rejects_zero_deposit(
    data: Seq<u8>,
    accts: Seq<AccountState>,
    program_id: Pubkey,
)
    requires
        data.len() == 24,
        u64_from_le(data.subrange(16, 24)) == 0,
    ensures
        make_outcome(data, accts, program_id) is Err,
        make_accounts_check(accts) is Ok ==> make_outcome(data, accts, program_id) == Err::<
            Seq<Effect>,
            ProgramError,
        >(ProgramError::InvalidInstructionData),
{
}

/// The bytes from which an escrow's address is derived: the seeds and the
/// bump, one after the other.
pub open spec fn derivation_bytes(maker: Seq<u8>, seed: u64, bump: u8) -> Seq<u8> {
    escrow_seeds_with_bump(maker, seed, bump).flatten()
}

/// The search for an escrow's address depends on the maker and the seed
/// alone; and two escrows of different makers, or of one maker with
/// different seeds, are derived from different bytes, whatever their bumps.
pub proof fn lemma_escrow_derivation_distinct(
    m1: Seq<u8>,
    s1: u64,
    b1: u8,
    m2: Seq<u8>,
    s2: u64,
    b2: u8,
    program_id: Pubkey,
)
    requires
        m1.len() == 32,
        m2.len() == 32,
    ensures
        (m1 == m2 && s1 == s2) ==> found_program_address(escrow_seeds(m1, s1), program_id@)
            == found_program_address(escrow_seeds(m2, s2), program_id@),
        (m1 != m2 || s1 != s2) ==> derivation_bytes(m1, s1, b1) != derivation_bytes(m2, s2, b2),
{
    reveal_with_fuel(Seq::flatten, 5);
    let d1 = derivation_bytes(m1, s1, b1);
    let d2 = derivation_bytes(m2, s2, b2);
    assert(d1 =~= escrow_tag() + m1 + le_bytes(s1) + seq![b1]);
    assert(d2 =~= escrow_tag() + m2 + le_bytes(s2) + seq![b2]);
    if d1 == d2 {
        assert(d1.subrange(6, 38) =~= m1);
        assert(d2.subrange(6, 38) =~= m2);
        assert(d1.subrange(38, 46) =~= le_bytes(s1));
        assert(d2.subrange(38, 46) =~= le_bytes(s2));
        crate::address::lemma_le_bytes_injective(s1, s2);
    }
}

/// The net flow of a list is that of the list without its last effect,
/// plus what the last effect moves.
proof fn lemma_net_flow_last(effects: Seq<Effect>, account: Pubkey)
    requires
        effects.len() > 0,
    ensures
        net_flow(effects, account) == net_flow(effects.drop_last(), account) + (match effects.last() {
            Effect::Transfer { from, to, amount, .. } => (if to == account {
                amount as int
            } else {
                0
            }) - (if from == account {
                amount as int
            } else {
                0
            }),
            _ => 0,
        }),
{
}

/// A settlement that passes its checks moves exactly the amount that the
/// record asks for from the taker's token account to the maker's, and the
/// whole balance of the vault to the taker's token account for the first
/// mint; the mints are the record's; the vault is closed to the maker, and
/// the escrow account is released last.
pub proof fn lemma_take_settles(accts: Seq<AccountState>, program_id: Pubkey)
    requires
        take_outcome(accts, program_id) is Ok,
        accts[5].key != accts[6].key,
        accts[5].key != accts[7].key,
        accts[5].key != accts[8].key,
        accts[6].key != accts[7].key,
        accts[6].key != accts[8].key,
        accts[7].key != accts[8].key,
    ensures
        ({
            let effects = take_outcome(accts, program_id)->Ok_0;
            let d = accts[2].data;
            let vault_amount = token_amount(accts[5].data);
            let signer = Authority::Escrow(
                EscrowSigner {
                    address: accts[2].key,
                    maker: accts[1].key,
                    seed: record_seed(d),
                    bump: record_bump(d),
                },
            );
            &&& accts[3].key@ == record_mint_a(d) && accts[4].key@ == record_mint_b(d)
            &&& net_flow(effects, accts[8].key) == record_receive(d)
            &&& net_flow(effects, accts[7].key) == -record_receive(d)
            &&& net_flow(effects, accts[6].key) == vault_amount
            &&& net_flow(effects, accts[5].key) == -vault_amount
            &&& effects.contains(
                Effect::CloseTokenAccount {
                    account: accts[5].key,
                    destination: accts[1].key,
                    authority: signer,
                },
            )
            &&& effects.last() == Effect::CloseProgramAccount {
                account: accts[2].key,
                destination: accts[1].key,
            }
        }),
{
    let effects = take_outcome(accts, program_id)->Ok_0;
    let amount = take_check(accts, program_id)->Ok_0;
    assert(effects == take_effects(accts, amount));
    reveal(take_effects);
    assert(effects[3] == Effect::CloseTokenAccount {
        account: accts[5].key,
        destination: accts[1].key,
        authority: Authority::Escrow(
            EscrowSigner {
                address: accts[2].key,
                maker: accts[1].key,
                seed: record_seed(accts[2].data),
                bump: record_bump(accts[2].data),
            },
        ),
    });
    let e5 = effects.drop_last();
    let e4 = e5.drop_last();
    let e3 = e4.drop_last();
    let e2 = e3.drop_last();
    let e1 = e2.drop_last();
    let e0 = e1.drop_last();
    assert(e0 =~= Seq::<Effect>::empty());
    assert(e1 =~= seq![effects[0]]);
    assert(e2 =~= seq![effects[0], effects[1]]);
    assert(e3 =~= seq![effects[0], effects[1], effects[2]]);
    assert(e4 =~= seq![effects[0], effects[1], effects[2], effects[3]]);
    assert(e5 =~= seq![effects[0], effects[1], effects[2], effects[3], effects[4]]);
    assert forall|k: Pubkey| true implies net_flow(effects, k) == net_flow(e5, k) && net_flow(e5, k)
        == net_flow(e4, k) + (match effects[4] {
        Effect::Transfer { from, to, amount, .. } => (if to == k {
            amount as int
        } else {
            0
        }) - (if from == k {
            amount as int
        } else {
            0
        }),
        _ => 0,
    }) && net_flow(e4, k) == net_flow(e3, k) && net_flow(e3, k) == net_flow(e2, k) + (
    match effects[2] {
        Effect::Transfer { from, to, amount, .. } => (if to == k {
            amount as int
        } else {
            0
        }) - (if from == k {
            amount as int
        } else {
            0
        }),
        _ => 0,
    }) && net_flow(e2, k) == net_flow(e1, k) && net_flow(e1, k) == net_flow(e0, k) && net_flow(
        e0,
        k,
    ) == 0 by {
        lemma_net_flow_last(effects, k);
        lemma_net_flow_last(e5, k);
        lemma_net_flow_last(e4, k);
        lemma_net_flow_last(e3, k);
        lemma_net_flow_last(e2, k);
        lemma_net_flow_last(e1, k);
    }
}

/// A refund that passes its checks moves the whole balance of the vault to
/// the maker's token account and moves nothing else: no token account but
/// those two sees a transfer, so nothing of the amount asked for moves; the
/// vault is closed to the maker, and the escrow account is released last.
pub proof fn lemma_refund_returns_deposit(accts: Seq<AccountState>, program_id: Pubkey)
    requires
        refund_outcome(accts, program_id) is Ok,
        accts[3].key != accts[4].key,
    ensures
        ({
            let effects = refund_outcome(accts, program_id)->Ok_0;
            let vault_amount = token_amount(accts[4].data);
            &&& net_flow(effects, accts[3].key) == vault_amount
            &&& net_flow(effects, accts[4].key) == -vault_amount
            &&& forall|k: Pubkey|
                k != accts[3].key && k != accts[4].key ==> #[trigger] net_flow(effects, k) == 0
            &&& effects.last() == Effect::CloseProgramAccount {
                account: accts[1].key,
                destination: accts[0].key,
            }
        }),
{
    let effects = refund_outcome(accts, program_id)->Ok_0;
    let amount = refund_check(accts, program_id)->Ok_0;
    assert(effects == refund_effects(accts, amount));
    reveal(refund_effects);
    let e2 = effects.drop_last();
    let e1 = e2.drop_last();
    let e0 = e1.drop_last();
    assert(e0 =~= Seq::<Effect>::empty());
    assert(e1 =~= seq![effects[0]]);
    assert(e2 =~= seq![effects[0], effects[1]]);
    assert forall|k: Pubkey| true implies net_flow(effects, k) == net_flow(e2, k) && net_flow(e2, k)
        == net_flow(e1, k) && net_flow(e1, k) == net_flow(e0, k) + (match effects[0] {
        Effect::Transfer { from, to, amount, .. } => (if to == k {
            amount as int
        } else {
            0
        }) - (if from == k {
            amount as int
        } else {
            0
        }),
        _ => 0,
    }) && net_flow(e0, k) == 0 by {
        lemma_net_flow_last(effects, k);
        lemma_net_flow_last(e2, k);
        lemma_net_flow_last(e1, k);
    }
}

/// The state of an account once the program released it to `owner`, the
/// system program: no data left.
pub open spec fn released(a: AccountState, owner: Pubkey) -> AccountState {
    AccountState { owner, data: Seq::empty(), ..a }
}

/// Settling an escrow, then settling or refunding it again, fails the second
/// time: a settlement ends by releasing the escrow account, and once it is
/// released, neither a settlement nor a refund that names it passes its
/// checks, whatever the other accounts are.
pub proof fn lemma_take_not_replayed(
    accts: Seq<AccountState>,
    program_id: Pubkey,
    others: Seq<AccountState>,
    system: Pubkey,
)
    requires
        take_outcome(accts, program_id) is Ok,
        others.len() >= 7,
    ensures
        take_outcome(accts, program_id)->Ok_0.last() == (Effect::CloseProgramAccount {
            account: accts[2].key,
            destination: accts[1].key,
        }),
        take_outcome(accts.update(2, released(accts[2], system)), program_id) is Err,
        refund_outcome(others.update(1, released(accts[2], system)), program_id) is Err,
{
    reveal(take_effects);
}

/// Refunding an escrow, then refunding or settling it again, fails the
/// second time: a refund ends by releasing the escrow account, and once it
/// is released, neither a refund nor a settlement that names it passes its
/// checks, whatever the other accounts are.
pub proof fn lemma_refund_not_replayed(
    accts: Seq<AccountState>,
    program_id: Pubkey,
    others: Seq<AccountState>,
    system: Pubkey,
)
    requires
        refund_outcome(accts, program_id) is Ok,
        others.len() >= 11,
    ensures
        refund_outcome(accts, program_id)->Ok_0.last() == (Effect::CloseProgramAccount {
            account: accts[1].key,
            destination: accts[0].key,
        }),
        refund_outcome(accts.update(1, released(accts[1], system)), program_id) is Err,
        take_outcome(others.update(2, released(accts[1], system)), program_id) is Err,
{
    reveal(refund_effects);
}

/// A record with the fields that `e` has, in an account that the program
/// owns at the program address of those fields, passes the check of the
/// escrow account against its maker.
pub proof fn lemma_written_record_checks(
    maker: AccountState,
    escrow: AccountState,
    program_id: Pubkey,
    e: Escrow,
)
    requires
        e.wf(),
        escrow.owner == program_id,
        escrow.data == e.spec_bytes(),
        maker.key == e.maker,
        created_program_address(escrow_seeds_with_bump(e.maker@, e.seed, e.bump), program_id@)
            == Some(escrow.key@),
    ensures
        escrow_check(maker, escrow, program_id) is Ok,
        record_seed(escrow.data) == e.seed,
        record_bump(escrow.data) == e.bump,
        record_receive(escrow.data) == e.receive,
        record_mint_a(escrow.data) == e.mint_a@,
        record_mint_b(escrow.data) == e.mint_b@,
{
    lemma_escrow_fields(e);
    assert(escrow.data.subrange(113, 120) =~= e._padding@);
}

/// The record that a deposit with arguments `args` and bump `bump` wrote, in
/// an escrow account that the program owns at the address that the deposit
/// checked.
pub open spec fn holds_deposit(
    make_accts: Seq<AccountState>,
    args: MakeInstructionData,
    bump: u8,
    program_id: Pubkey,
    e: Escrow,
    escrow: AccountState,
) -> bool {
    &&& created_program_address(
        escrow_seeds_with_bump(make_accts[0].key@, args.seed, bump),
        program_id@,
    ) == Some(make_accts[1].key@)
    &&& e.wf() && e.seed == args.seed && e.maker == make_accts[0].key && e.mint_a
        == make_accts[2].key && e.mint_b == make_accts[3].key && e.receive == args.receive && e.bump
        == bump
    &&& escrow.key == make_accts[1].key && escrow.owner == program_id && escrow.data
        == e.spec_bytes()
}

/// A deposit, then a settlement: once the escrow account holds the record
/// that a deposit wrote, a settlement that any signer makes with the
/// deposit's maker and mints and a token account as vault passes its checks,
/// moves the amount that the deposit asked for from the taker to the maker,
/// and the vault's balance to the taker.
pub proof fn lemma_make_then_take(
    data: Seq<u8>,
    make_accts: Seq<AccountState>,
    program_id: Pubkey,
    args: MakeInstructionData,
    bump: u8,
    e: Escrow,
    take_accts: Seq<AccountState>,
)
    requires
        make_check(data, make_accts, program_id) == Ok::<(MakeInstructionData, u8), ProgramError>(
            (args, bump),
        ),
        holds_deposit(make_accts, args, bump, program_id, e, take_accts[2]),
        take_accts.len() >= 11,
        take_accts[0].is_signer,
        take_accts[1].key == make_accts[0].key,
        take_accts[3].key == make_accts[2].key,
        take_accts[4].key == make_accts[3].key,
        is_token_account(take_accts[5]),
    ensures
        take_outcome(take_accts, program_id) is Ok,
        take_outcome(take_accts, program_id)->Ok_0[4] == (Effect::Transfer {
            from: take_accts[7].key,
            to: take_accts[8].key,
            authority: Authority::Signature(take_accts[0].key),
            amount: args.receive,
        }),
        take_outcome(take_accts, program_id)->Ok_0[2] == (Effect::Transfer {
            from: take_accts[5].key,
            to: take_accts[6].key,
            authority: Authority::Escrow(
                EscrowSigner {
                    address: make_accts[1].key,
                    maker: make_accts[0].key,
                    seed: args.seed,
                    bump,
                },
            ),
            amount: token_amount(take_accts[5].data),
        }),
{
    lemma_written_record_checks(take_accts[1], take_accts[2], program_id, e);
    crate::address::lemma_pubkey_view_eq(take_accts[3].key, e.mint_a);
    crate::address::lemma_pubkey_view_eq(take_accts[4].key, e.mint_b);
    assert(take_check(take_accts, program_id) == Ok::<u64, ProgramError>(
        token_amount(take_accts[5].data),
    ));
    reveal(take_effects);
}

/// A deposit, then a refund: once the escrow account holds the record that
/// a deposit wrote, a refund that the maker signs with the deposit's first
/// mint and a token account as vault passes its checks and moves the
/// vault's balance back to the maker's token account.
pub proof fn lemma_make_then_refund(
    data: Seq<u8>,
    make_accts: Seq<AccountState>,
    program_id: Pubkey,
    args: MakeInstructionData,
    bump: u8,
    e: Escrow,
    refund_accts: Seq<AccountState>,
)
    requires
        make_check(data, make_accts, program_id) == Ok::<(MakeInstructionData, u8), ProgramError>(
            (args, bump),
        ),
        holds_deposit(make_accts, args, bump, program_id, e, refund_accts[1]),
        refund_accts.len() >= 7,
        refund_accts[0].is_signer,
        refund_accts[0].key == make_accts[0].key,
        refund_accts[2].key == make_accts[2].key,
        mint_check(refund_accts[2].owner@, refund_accts[2].data) is Ok,
        is_token_account(refund_accts[4]),
    ensures
        refund_outcome(refund_accts, program_id) is Ok,
        refund_outcome(refund_accts, program_id)->Ok_0[0] == (Effect::Transfer {
            from: refund_accts[4].key,
            to: refund_accts[3].key,
            authority: Authority::Escrow(
                EscrowSigner {
                    address: make_accts[1].key,
                    maker: make_accts[0].key,
                    seed: args.seed,
                    bump,
                },
            ),
            amount: token_amount(refund_accts[4].data),
        }),
{
    lemma_written_record_checks(refund_accts[0], refund_accts[1], program_id, e);
    crate::address::lemma_pubkey_view_eq(refund_accts[2].key, e.mint_a);
    assert(refund_check(refund_accts, program_id) == Ok::<u64, ProgramError>(
        token_amount(refund_accts[4].data),
    ));
    reveal(refund_effects);
}

} // verus!
