//! Fixed-layout records of the companion programs: a counter, an address
//! book entry, a list of favourites and a user name.
use vstd::prelude::*;
use crate::error::ProgramError;

verus! {

/// An address book entry; text fields are zero-padded bytes.
#[derive(Clone, Copy, Debug, PartialEq, Eq)]
pub struct AddressInfo {
    pub name: [u8; 50],
    pub house_number: u8,
    pub street: [u8; 50],
    pub city: [u8; 50],
}

impl AddressInfo {
    /// The size of the stored entry.
    pub const LEN: usize = 151;

    /// Replaces every field with those of `data`, and returns the result.
    pub fn set_inner(&mut self, data: Self) -> (r: Self)
        ensures
            *final(self) == data,
            r == data,
    {
        self.name = data.name;
        self.house_number = data.house_number;
        self.street = data.street;
        self.city = data.city;
        *self
    }
}

/// The first `min(data.len(), size, N)` bytes of `data`, then zeros, as an
/// array of `N` bytes.
pub fn create_padded_array<const N: usize>(data: &[u8], size: usize) -> (r: [u8; N])
    ensures
        forall|i: int|
            0 <= i < N ==> #[trigger] r@[i] == if i < data@.len() && i < size {
                data@[i]
            } else {
                0u8
            },
{
    let mut result = [0u8; N];
    let mut copy_size = data.len();
    if size < copy_size {
        copy_size = size;
    }
    if N < copy_size {
        copy_size = N;
    }
    let mut i: usize = 0;
    while i < copy_size
        invariant
            copy_size <= N,
            copy_size <= data@.len(),
            copy_size <= size,
            i <= copy_size,
            result@.len() == N,
            forall|j: int| 0 <= j < i ==> result@[j] == data@[j],
            forall|j: int| i <= j < N ==> result@[j] == 0u8,
        decreases copy_size - i,
    {
        result[i] = data[i];
        i = i + 1;
    }
    result
}

/// A counter, stored as the little-endian bytes of a `u64`.
#[derive(Clone, Copy, Debug, PartialEq, Eq)]
pub struct Counter {
    pub count: [u8; 8],
}

impl Counter {
    /// The size of the stored counter.
    pub const LEN: usize = 8;

    /// Replaces the count with that of `data`, and returns the result.
    pub fn set_inner(&mut self, data: Self) -> (r: Self)
        ensures
            *final(self) == data,
            r == data,
    {
        self.count = data.count;
        *self
    }
}

/// How a counter changes.
#[allow(non_camel_case_types)]
#[derive(Clone, Copy, Debug, PartialEq, Eq, Structural)]
pub enum MutationType {
    INCREASE,
    DECREASE,
}

impl MutationType {
    /// Reads the change from the first byte: 0 increases, 1 decreases;
    /// anything else, or no byte, fails with `InvalidInstructionData`.
    pub fn try_from(data: &[u8]) -> (r: Result<MutationType, ProgramError>)
        ensures
            data@.len() > 0 && data@[0] == 0 ==> r == Ok::<MutationType, ProgramError>(
                MutationType::INCREASE,
            ),
            data@.len() > 0 && data@[0] == 1 ==> r == Ok::<MutationType, ProgramError>(
                MutationType::DECREASE,
            ),
            data@.len() == 0 || data@[0] > 1 ==> r == Err::<MutationType, ProgramError>(
                ProgramError::InvalidInstructionData,
            ),
    {
        if data.len() == 0 {
            Err(ProgramError::InvalidInstructionData)
        } else if data[0] == 0 {
            Ok(MutationType::INCREASE)
        } else if data[0] == 1 {
            Ok(MutationType::DECREASE)
        } else {
            Err(ProgramError::InvalidInstructionData)
        }
    }
}

/// The failure of a counter that would leave the range of a `u64`.
#[derive(Clone, Copy, Debug, PartialEq, Eq, Structural)]
pub enum CounterError {
    Overflow,
}

impl From<CounterError> for ProgramError {
    fn from(e: CounterError) -> (r: ProgramError)
        ensures
            r == ProgramError::Custom(6001),
    {
        ProgramError::Custom(6001)
    }
}

impl vstd::std_specs::convert::FromSpecImpl<CounterError> for ProgramError {
    open spec fn obeys_from_spec() -> bool {
        true
    }

    open spec fn from_spec(e: CounterError) -> ProgramError {
        ProgramError::Custom(6001)
    }
}

/// A favourite number, colour and five hobbies, with the bump of the
/// record's program address.
#[derive(Clone, Copy, Debug, PartialEq, Eq)]
pub struct Favorites {
    pub number: [u8; 8],
    pub color: [u8; 50],
    pub hobbies: [[u8; 50]; 5],
    pub bump: u8,
}

impl Favorites {
    /// The size of the stored record.
    pub const LEN: usize = 309;

    /// Replaces every field with those of `data`, and returns the result.
    pub fn set_inner(&mut self, data: Self) -> (r: Self)
        ensures
            *final(self) == data,
            r == data,
    {
        self.number = data.number;
        self.color = data.color;
        self.hobbies = data.hobbies;
        self.bump = data.bump;
        *self
    }
}

/// A user's name, as 64 bytes.
#[derive(Clone, Copy, Debug, PartialEq, Eq)]
pub struct User {
    pub name: [u8; 64],
}

impl User {
    /// The size of the stored record.
    pub const LEN: usize = 64;

    /// Reads a user from exactly `LEN` bytes; other sizes fail with
    /// `InvalidAccountData`.
    pub fn load(bytes: &[u8]) -> (r: Result<User, ProgramError>)
        ensures
            bytes@.len() == User::LEN ==> (r matches Ok(u) && u.name@ == bytes@),
            bytes@.len() != User::LEN ==> r == Err::<User, ProgramError>(
                ProgramError::InvalidAccountData,
            ),
    {
        if bytes.len() != User::LEN {
            return Err(ProgramError::InvalidAccountData);
        }
        let name: [u8; 64] = create_padded_array(bytes, User::LEN);
        assert(name@ =~= bytes@);
        Ok(User { name })
    }
}

} // verus!
