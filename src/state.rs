use vstd::prelude::*;
use crate::account::{AccountInfo, AccountState, pubkey_eq};
use crate::address::{Pubkey, le_bytes, u64_from_le, read_u64_le, u64_to_le, array_to_vec, escrow_seeds_with_bump, created_program_address, create_escrow_address, lemma_pubkey_view_eq};
use crate::error::ProgramError;

verus! {

/// The record of one open escrow, as it is stored in the escrow account.
///
/// Layout, little-endian, 120 bytes: `seed` at 0, `maker` at 8, `mint_a` at
/// 40, `mint_b` at 72, `receive` at 104, `bump` at 112, seven bytes of zero
/// padding at 113.
#[derive(Clone, Copy, Debug, PartialEq, Eq)]
pub struct Escrow {
    /// The maker's nonce, which lets one maker hold several escrows.
    pub seed: u64,
    /// The account that opened the escrow.
    pub maker: Pubkey,
    /// The mint of the deposited tokens.
    pub mint_a: Pubkey,
    /// The mint of the tokens asked for.
    pub mint_b: Pubkey,
    /// How many tokens of `mint_b` settle the escrow.
    pub receive: u64,
    /// The bump that makes the escrow's address a program address.
    pub bump: u8,
    pub _padding: [u8; 7],
}

/// Seven zero bytes.
pub open spec fn zero_padding() -> Seq<u8> {
    Seq::new(7, |i: int| 0u8)
}

/// The bytes of `data[at..at + 32]`, as an address.
fn read_pubkey(data: &[u8], at: usize) -> (r: Pubkey)
    requires
        at + 32 <= data@.len(),
    ensures
        r@ == data@.subrange(at as int, at + 32),
{
    let mut r: Pubkey = [0u8; 32];
    let len = data.len();
    let mut i: usize = 0;
    while i < 32
        invariant
            i <= 32,
            len == data@.len(),
            at + 32 <= len,
            r@.len() == 32,
            forall|j: int| 0 <= j < i ==> r@[j] == data@[at + j],
        decreases 32 - i,
    {
        r[i] = data[at + i];
        i = i + 1;
    }
    assert(r@ =~= data@.subrange(at as int, at + 32));
    r
}

/// Eight bytes are the little-endian bytes of the integer that they encode.
pub proof fn lemma_le_bytes_of_decoded(s: Seq<u8>)
    requires
        s.len() == 8,
    ensures
        le_bytes(u64_from_le(s)) == s,
{
    let b0 = s[0];
    let b1 = s[1];
    let b2 = s[2];
    let b3 = s[3];
    let b4 = s[4];
    let b5 = s[5];
    let b6 = s[6];
    let b7 = s[7];
    let x = u64_from_le(s);
    assert(x == (b0 as u64) | ((b1 as u64) << 8u64) | ((b2 as u64) << 16u64) | ((b3 as u64)
        << 24u64) | ((b4 as u64) << 32u64) | ((b5 as u64) << 40u64) | ((b6 as u64) << 48u64) | ((
    b7 as u64) << 56u64));
    assert(x == (b0 as u64) | ((b1 as u64) << 8u64) | ((b2 as u64) << 16u64) | ((b3 as u64)
        << 24u64) | ((b4 as u64) << 32u64) | ((b5 as u64) << 40u64) | ((b6 as u64) << 48u64) | ((
    b7 as u64) << 56u64) ==> x as u8 == b0 && (x >> 8u64) as u8 == b1 && (x >> 16u64) as u8 == b2
        && (x >> 24u64) as u8 == b3 && (x >> 32u64) as u8 == b4 && (x >> 40u64) as u8 == b5 && (x
        >> 48u64) as u8 == b6 && (x >> 56u64) as u8 == b7) by (bit_vector);
    assert(le_bytes(x) =~= s);
}

impl Escrow {
    /// The size of the stored record, in bytes.
    pub const LEN: usize = 120;

    /// The stored bytes of this record.
    pub open spec fn spec_bytes(self) -> Seq<u8> {
        le_bytes(self.seed) + self.maker@ + self.mint_a@ + self.mint_b@ + le_bytes(self.receive)
            + seq![self.bump] + self._padding@
    }

    /// The padding holds zeros only.
    pub open spec fn wf(self) -> bool {
        self._padding@ == zero_padding()
    }

    /// A record with the given fields and zero padding.
    pub fn new(seed: u64, maker: Pubkey, mint_a: Pubkey, mint_b: Pubkey, receive: u64, bump: u8)
        -> (r: Escrow)
        ensures
            r.wf(),
            r.seed == seed,
            r.maker == maker,
            r.mint_a == mint_a,
            r.mint_b == mint_b,
            r.receive == receive,
            r.bump == bump,
    {
        let r = Escrow { seed, maker, mint_a, mint_b, receive, bump, _padding: [0u8; 7] };
        assert(r._padding@ =~= zero_padding());
        r
    }

    /// Reads a record from the bytes of an escrow account.
    ///
    /// Fails with `InvalidAccountData` unless there are exactly `LEN` bytes
    /// and the padding is zero; otherwise the record is the one whose bytes
    /// these are.
    pub fn load(data: &[u8]) -> (r: Result<Escrow, ProgramError>)
        ensures
            r is Ok <==> data@.len() == Escrow::LEN && data@.subrange(113, 120) == zero_padding(),
            r is Err ==> r == Err::<Escrow, ProgramError>(ProgramError::InvalidAccountData),
            r matches Ok(e) ==> e.spec_bytes() == data@ && e.wf(),
    {
        if data.len() != Escrow::LEN {
            return Err(ProgramError::InvalidAccountData);
        }
        let mut i: usize = 113;
        while i < 120
            invariant
                113 <= i <= 120,
                data@.len() == 120,
                forall|j: int| 113 <= j < i ==> data@[j] == 0,
            decreases 120 - i,
        {
            if data[i] != 0 {
                assert(data@.subrange(113, 120)[i - 113] != zero_padding()[i - 113]);
                return Err(ProgramError::InvalidAccountData);
            }
            i = i + 1;
        }
        assert(data@.subrange(113, 120) =~= zero_padding());
        let seed = read_u64_le(data, 0);
        let maker = read_pubkey(data, 8);
        let mint_a = read_pubkey(data, 40);
        let mint_b = read_pubkey(data, 72);
        let receive = read_u64_le(data, 104);
        let bump = data[112];
        let e = Escrow::new(seed, maker, mint_a, mint_b, receive, bump);
        proof {
            lemma_le_bytes_of_decoded(data@.subrange(0, 8));
            lemma_le_bytes_of_decoded(data@.subrange(104, 112));
            assert(e.spec_bytes() =~= data@);
        }
        Ok(e)
    }

    /// The stored bytes of this record.
    pub fn to_bytes(&self) -> (r: Vec<u8>)
        ensures
            r@ == self.spec_bytes(),
            r@.len() == Escrow::LEN,
    {
        let mut r = u64_to_le(self.seed);
        let mut part = array_to_vec(&self.maker);
        r.append(&mut part);
        let mut part = array_to_vec(&self.mint_a);
        r.append(&mut part);
        let mut part = array_to_vec(&self.mint_b);
        r.append(&mut part);
        let mut part = u64_to_le(self.receive);
        r.append(&mut part);
        r.push(self.bump);
        let mut i: usize = 0;
        let ghost head = r@;
        while i < 7
            invariant
                i <= 7,
                r@ == head + self._padding@.subrange(0, i as int),
            decreases 7 - i,
        {
            r.push(self._padding[i]);
            i = i + 1;
            assert(r@ =~= head + self._padding@.subrange(0, i as int));
        }
        assert(self._padding@.subrange(0, 7) =~= self._padding@);
        assert(r@ =~= self.spec_bytes());
        r
    }

    /// Sets every field but the padding.
    pub fn set_inner(
        &mut self,
        seed: u64,
        maker: Pubkey,
        mint_a: Pubkey,
        mint_b: Pubkey,
        receive: u64,
        bump: u8,
    )
        ensures
            final(self).seed == seed,
            final(self).maker == maker,
            final(self).mint_a == mint_a,
            final(self).mint_b == mint_b,
            final(self).receive == receive,
            final(self).bump == bump,
            final(self)._padding == old(self)._padding,
    {
        self.seed = seed;
        self.maker = maker;
        self.mint_a = mint_a;
        self.mint_b = mint_b;
        self.receive = receive;
        self.bump = bump;
    }
}

/// The seed stored in the record bytes `d`.
pub open spec fn record_seed(d: Seq<u8>) -> u64 {
    u64_from_le(d.subrange(0, 8))
}

/// The maker stored in the record bytes `d`.
pub open spec fn record_maker(d: Seq<u8>) -> Seq<u8> {
    d.subrange(8, 40)
}

/// The first mint stored in the record bytes `d`.
pub open spec fn record_mint_a(d: Seq<u8>) -> Seq<u8> {
    d.subrange(40, 72)
}

/// The second mint stored in the record bytes `d`.
pub open spec fn record_mint_b(d: Seq<u8>) -> Seq<u8> {
    d.subrange(72, 104)
}

/// The amount asked for, stored in the record bytes `d`.
pub open spec fn record_receive(d: Seq<u8>) -> u64 {
    u64_from_le(d.subrange(104, 112))
}

/// The bump stored in the record bytes `d`.
pub open spec fn record_bump(d: Seq<u8>) -> u8 {
    d[112]
}

/// The fields of a record are what its bytes hold at their places.
pub proof fn lemma_escrow_fields(e: Escrow)
    ensures
        record_seed(e.spec_bytes()) == e.seed,
        record_maker(e.spec_bytes()) == e.maker@,
        record_mint_a(e.spec_bytes()) == e.mint_a@,
        record_mint_b(e.spec_bytes()) == e.mint_b@,
        record_receive(e.spec_bytes()) == e.receive,
        record_bump(e.spec_bytes()) == e.bump,
        e.spec_bytes().len() == Escrow::LEN,
{
    let s = e.spec_bytes();
    assert(s.subrange(0, 8) =~= le_bytes(e.seed));
    assert(s.subrange(8, 40) =~= e.maker@);
    assert(s.subrange(40, 72) =~= e.mint_a@);
    assert(s.subrange(72, 104) =~= e.mint_b@);
    assert(s.subrange(104, 112) =~= le_bytes(e.receive));
    crate::address::lemma_le_bytes_round_trip(e.seed);
    crate::address::lemma_le_bytes_round_trip(e.receive);
}

/// The outcome of checking the escrow account against its maker before its
/// record is trusted: the program owns it, it holds a well-formed record,
/// and it is at the program address that the maker, the stored seed and the
/// stored bump give.
pub open spec fn escrow_check(maker: AccountState, escrow: AccountState, program_id: Pubkey) -> Result<
    (),
    ProgramError,
> {
    let d = escrow.data;
    if escrow.owner != program_id {
        Err(ProgramError::InvalidAccountOwner)
    } else if !(d.len() == Escrow::LEN && d.subrange(113, 120) == zero_padding()) {
        Err(ProgramError::InvalidAccountData)
    } else {
        match created_program_address(
            escrow_seeds_with_bump(maker.key@, record_seed(d), record_bump(d)),
            program_id@,
        ) {
            None => Err(ProgramError::InvalidSeeds),
            Some(k) => if k != escrow.key@ {
                Err(ProgramError::InvalidAccountOwner)
            } else {
                Ok(())
            },
        }
    }
}

impl Escrow {
    /// Reads the record of the escrow account `escrow` after checking it
    /// against its maker and the program.
    pub fn load_checked(maker: &AccountInfo, escrow: &AccountInfo, program_id: &Pubkey) -> (r:
        Result<Escrow, ProgramError>)
        ensures
            r is Ok <==> escrow_check(maker@, escrow@, *program_id) is Ok,
            r matches Err(e) ==> escrow_check(maker@, escrow@, *program_id) == Err::<(), ProgramError>(e),
            r matches Ok(e) ==> e.spec_bytes() == escrow.data@ && e.wf() && e.seed == record_seed(
                escrow.data@,
            ) && e.bump == record_bump(escrow.data@) && e.receive == record_receive(escrow.data@)
                && e.mint_a@ == record_mint_a(escrow.data@) && e.mint_b@ == record_mint_b(
                escrow.data@,
            ) && e.maker@ == record_maker(escrow.data@),
    {
        proof {
            lemma_pubkey_view_eq(escrow.owner, *program_id);
        }
        if !pubkey_eq(&escrow.owner, program_id) {
            return Err(ProgramError::InvalidAccountOwner);
        }
        let e = match Escrow::load(escrow.data.as_slice()) {
            Ok(e) => e,
            Err(err) => return Err(err),
        };
        proof {
            lemma_escrow_fields(e);
        }
        match create_escrow_address(&maker.key, e.seed, e.bump, program_id) {
            None => Err(ProgramError::InvalidSeeds),
            Some(k) => {
                proof {
                    lemma_pubkey_view_eq(k, escrow.key);
                }
                if !pubkey_eq(&k, &escrow.key) {
                    Err(ProgramError::InvalidAccountOwner)
                } else {
                    Ok(e)
                }
            },
        }
    }
}

/// Two records with the same bytes are the same record.
pub proof fn lemma_escrow_bytes_injective(a: Escrow, b: Escrow)
    requires
        a.spec_bytes() == b.spec_bytes(),
    ensures
        a == b,
{
    let s = a.spec_bytes();
    let t = b.spec_bytes();
    assert(s.subrange(0, 8) =~= le_bytes(a.seed));
    assert(t.subrange(0, 8) =~= le_bytes(b.seed));
    crate::address::lemma_le_bytes_injective(a.seed, b.seed);
    assert(s.subrange(8, 40) =~= a.maker@);
    assert(t.subrange(8, 40) =~= b.maker@);
    assert(a.maker =~= b.maker);
    assert(s.subrange(40, 72) =~= a.mint_a@);
    assert(t.subrange(40, 72) =~= b.mint_a@);
    assert(a.mint_a =~= b.mint_a);
    assert(s.subrange(72, 104) =~= a.mint_b@);
    assert(t.subrange(72, 104) =~= b.mint_b@);
    assert(a.mint_b =~= b.mint_b);
    assert(s.subrange(104, 112) =~= le_bytes(a.receive));
    assert(t.subrange(104, 112) =~= le_bytes(b.receive));
    crate::address::lemma_le_bytes_injective(a.receive, b.receive);
    assert(s[112] == a.bump && t[112] == b.bump);
    assert(s.subrange(113, 120) =~= a._padding@);
    assert(t.subrange(113, 120) =~= b._padding@);
    assert(a._padding =~= b._padding);
}

/// A record that is written and read back is the same record.
pub proof fn lemma_escrow_round_trip(e: Escrow, data: Seq<u8>)
    requires
        e.wf(),
        data == e.spec_bytes(),
    ensures
        data.len() == Escrow::LEN,
        data.subrange(113, 120) == zero_padding(),
        forall|f: Escrow| #[trigger] f.spec_bytes() == data ==> f == e,
{
    assert(data.subrange(113, 120) =~= e._padding@);
    assert forall|f: Escrow| #[trigger] f.spec_bytes() == data implies f == e by {
        lemma_escrow_bytes_injective(f, e);
    }
}

} // verus!
