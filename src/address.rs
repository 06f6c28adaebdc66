use vstd::prelude::*;
use pinocchio::Address;

verus! {

/// A 32-byte account address.
pub type Pubkey = [u8; 32];

/// Two addresses are equal exactly when their bytes are.
pub proof fn lemma_pubkey_view_eq(a: Pubkey, b: Pubkey)
    ensures
        (a == b) <==> (a@ == b@),
{
    if a@ == b@ {
        assert(a =~= b);
    }
}

/// The little-endian bytes of `x`.
pub open spec fn le_bytes(x: u64) -> Seq<u8> {
    seq![
        x as u8,
        (x >> 8u64) as u8,
        (x >> 16u64) as u8,
        (x >> 24u64) as u8,
        (x >> 32u64) as u8,
        (x >> 40u64) as u8,
        (x >> 48u64) as u8,
        (x >> 56u64) as u8,
    ]
}

/// The integer whose little-endian bytes are the first eight of `s`.
pub open spec fn u64_from_le(s: Seq<u8>) -> u64 {
    (s[0] as u64) | ((s[1] as u64) << 8u64) | ((s[2] as u64) << 16u64) | ((s[3] as u64)
        << 24u64) | ((s[4] as u64) << 32u64) | ((s[5] as u64) << 40u64) | ((s[6] as u64)
        << 48u64) | ((s[7] as u64) << 56u64)
}

pub proof fn lemma_le_bytes_round_trip(x: u64)
    ensures
        u64_from_le(le_bytes(x)) == x,
        le_bytes(x).len() == 8,
{
    let s = le_bytes(x);
    let b0 = x as u8;
    let b1 = (x >> 8u64) as u8;
    let b2 = (x >> 16u64) as u8;
    let b3 = (x >> 24u64) as u8;
    let b4 = (x >> 32u64) as u8;
    let b5 = (x >> 40u64) as u8;
    let b6 = (x >> 48u64) as u8;
    let b7 = (x >> 56u64) as u8;
    assert(s[0] == b0 && s[1] == b1 && s[2] == b2 && s[3] == b3);
    assert(s[4] == b4 && s[5] == b5 && s[6] == b6 && s[7] == b7);
    assert(((x as u8) as u64) | ((((x >> 8u64) as u8) as u64) << 8u64) | ((((x >> 16u64) as u8)
        as u64) << 16u64) | ((((x >> 24u64) as u8) as u64) << 24u64) | ((((x >> 32u64) as u8)
        as u64) << 32u64) | ((((x >> 40u64) as u8) as u64) << 40u64) | ((((x >> 48u64) as u8)
        as u64) << 48u64) | ((((x >> 56u64) as u8) as u64) << 56u64) == x) by (bit_vector);
}

/// Two integers with the same little-endian bytes are equal.
pub proof fn lemma_le_bytes_injective(x: u64, y: u64)
    requires
        le_bytes(x) == le_bytes(y),
    ensures
        x == y,
{
    lemma_le_bytes_round_trip(x);
    lemma_le_bytes_round_trip(y);
}

pub fn u64_to_le(x: u64) -> (r: Vec<u8>)
    ensures
        r@ == le_bytes(x),
{
    let r = vec![
        x as u8,
        (x >> 8u64) as u8,
        (x >> 16u64) as u8,
        (x >> 24u64) as u8,
        (x >> 32u64) as u8,
        (x >> 40u64) as u8,
        (x >> 48u64) as u8,
        (x >> 56u64) as u8,
    ];
    assert(r@ =~= le_bytes(x));
    r
}

/// Reads the little-endian integer at `data[at..at + 8]`.
pub fn read_u64_le(data: &[u8], at: usize) -> (r: u64)
    requires
        at + 8 <= data@.len(),
    ensures
        r == u64_from_le(data@.subrange(at as int, at + 8)),
{
    let s = Ghost(data@.subrange(at as int, at + 8));
    assert(s@[0] == data@[at as int] && s@[7] == data@[at + 7]);
    (data[at] as u64) | ((data[at + 1] as u64) << 8u64) | ((data[at + 2] as u64) << 16u64) | ((
    data[at + 3] as u64) << 24u64) | ((data[at + 4] as u64) << 32u64) | ((data[at + 5] as u64)
        << 40u64) | ((data[at + 6] as u64) << 48u64) | ((data[at + 7] as u64) << 56u64)
}

/// The bytes of the tag that starts every escrow's derivation.
pub open spec fn escrow_tag() -> Seq<u8> {
    seq![101u8, 115u8, 99u8, 114u8, 111u8, 119u8]
}

/// The seeds from which the address of the escrow that `maker` opened with
/// `seed` is derived, the bump left out.
pub open spec fn escrow_seeds(maker: Seq<u8>, seed: u64) -> Seq<Seq<u8>> {
    seq![escrow_tag(), maker, le_bytes(seed)]
}

/// The same seeds with the bump as a last one-byte seed.
pub open spec fn escrow_seeds_with_bump(maker: Seq<u8>, seed: u64, bump: u8) -> Seq<Seq<u8>> {
    escrow_seeds(maker, seed).push(seq![bump])
}

/// The views of a list of seeds.
pub open spec fn seeds_view(seeds: Seq<Vec<u8>>) -> Seq<Seq<u8>> {
    seeds.map_values(|s: Vec<u8>| s@)
}

/// What the runtime's search for a program address finds for `seeds` under
/// `program_id`: the address and its bump, if any bump gives one.
pub uninterp spec fn found_program_address(seeds: Seq<Seq<u8>>, program_id: Seq<u8>) -> Option<
    (Seq<u8>, u8),
>;

/// The program address that `seeds` give under `program_id`, if they give
/// one (a valid address lies off the curve).
pub uninterp spec fn created_program_address(seeds: Seq<Seq<u8>>, program_id: Seq<u8>) -> Option<
    Seq<u8>,
>;

/// Relies on `Address::try_find_program_address` (pinocchio's address type):
/// the result is a function of the seeds and the program alone, and where it
/// finds an address, the bump that it returns, appended to the seeds as one
/// more seed, makes `Address::create_program_address` give that address.
/// Called within the runtime's limits: fewer than 16 seeds, none longer
/// than 32 bytes.
#[verifier::external_body]
fn try_find_program_address(seeds: &Vec<Vec<u8>>, program_id: &Pubkey) -> (r: Option<
    (Pubkey, u8),
>)
    requires
        seeds@.len() < 16,
        forall|i: int| 0 <= i < seeds@.len() ==> (#[trigger] seeds@[i])@.len() <= 32,
    ensures
        found_program_address(seeds_view(seeds@), program_id@) == (match r {
            Some(p) => Some((p.0@, p.1)),
            None => None,
        }),
        r matches Some(p) ==> created_program_address(
            seeds_view(seeds@).push(seq![p.1]),
            program_id@,
        ) == Some(p.0@),
{
    let s: Vec<&[u8]> = seeds.iter().map(|v| v.as_slice()).collect();
    Address::try_find_program_address(&s, &Address::new_from_array(*program_id)).map(
        |(a, b)| (a.to_bytes(), b),
    )
}

/// Relies on `Address::create_program_address` (pinocchio's address type):
/// the result is a function of the seeds and the program alone; its error
/// kinds are not told apart here. Called within the runtime's limits: at
/// most 16 seeds, none longer than 32 bytes.
#[verifier::external_body]
fn create_program_address(seeds: &Vec<Vec<u8>>, program_id: &Pubkey) -> (r: Option<Pubkey>)
    requires
        seeds@.len() <= 16,
        forall|i: int| 0 <= i < seeds@.len() ==> (#[trigger] seeds@[i])@.len() <= 32,
    ensures
        created_program_address(seeds_view(seeds@), program_id@) == (match r {
            Some(a) => Some(a@),
            None => None,
        }),
{
    let s: Vec<&[u8]> = seeds.iter().map(|v| v.as_slice()).collect();
    Address::create_program_address(&s, &Address::new_from_array(*program_id)).ok().map(
        |a| a.to_bytes(),
    )
}

/// The bytes of an address, in a vector.
pub fn array_to_vec(a: &Pubkey) -> (r: Vec<u8>)
    ensures
        r@ == a@,
{
    let mut r: Vec<u8> = Vec::new();
    let mut i: usize = 0;
    while i < 32
        invariant
            i <= 32,
            r@ == a@.subrange(0, i as int),
        decreases 32 - i,
    {
        r.push(a[i]);
        i = i + 1;
        assert(r@ =~= a@.subrange(0, i as int));
    }
    assert(a@.subrange(0, 32) =~= a@);
    r
}

/// The seeds of the escrow that `maker` opened with `seed`.
pub fn escrow_seeds_of(maker: &Pubkey, seed: u64) -> (r: Vec<Vec<u8>>)
    ensures
        seeds_view(r@) == escrow_seeds(maker@, seed),
        r@.len() == 3,
        forall|i: int| 0 <= i < r@.len() ==> (#[trigger] r@[i])@.len() <= 32,
{
    let tag: Vec<u8> = vec![101u8, 115u8, 99u8, 114u8, 111u8, 119u8];
    let r = vec![tag, array_to_vec(maker), u64_to_le(seed)];
    assert(seeds_view(r@) =~= escrow_seeds(maker@, seed));
    r
}

/// Searches for the address of the escrow that `maker` opened with `seed`,
/// and its bump.
pub fn find_escrow_address(maker: &Pubkey, seed: u64, program_id: &Pubkey) -> (r: Option<
    (Pubkey, u8),
>)
    ensures
        found_program_address(escrow_seeds(maker@, seed), program_id@) == (match r {
            Some(p) => Some((p.0@, p.1)),
            None => None,
        }),
        r matches Some(p) ==> created_program_address(
            escrow_seeds_with_bump(maker@, seed, p.1),
            program_id@,
        ) == Some(p.0@),
{
    let seeds = escrow_seeds_of(maker, seed);
    try_find_program_address(&seeds, program_id)
}

/// The address that the escrow seeds of `maker` and `seed`, with `bump`, give.
pub fn create_escrow_address(maker: &Pubkey, seed: u64, bump: u8, program_id: &Pubkey) -> (r:
    Option<Pubkey>)
    ensures
        created_program_address(escrow_seeds_with_bump(maker@, seed, bump), program_id@) == (
        match r {
            Some(a) => Some(a@),
            None => None,
        }),
{
    let mut seeds = escrow_seeds_of(maker, seed);
    let last: Vec<u8> = vec![bump];
    assert(last@ =~= seq![bump]);
    let ghost before = seeds@;
    seeds.push(last);
    assert(seeds_view(before) == escrow_seeds(maker@, seed));
    assert(seeds_view(before).len() == before.len());
    assert(seeds@ == before.push(last));
    assert(seeds_view(seeds@).len() == 4);
    assert(seeds_view(seeds@)[3] == seq![bump]);
    assert(forall|i: int| 0 <= i < 3 ==> seeds_view(seeds@)[i] == seeds_view(before)[i]);
    assert(seeds_view(seeds@) =~= escrow_seeds_with_bump(maker@, seed, bump));
    create_program_address(&seeds, program_id)
}

} // verus!
