use blueshift_escrow::basics::{create_padded_array, AddressInfo, Counter, CounterError, Favorites, MutationType, User};
use blueshift_escrow::error::ProgramError;

#[test]
fn address_info_set_inner() {
    let mut info = AddressInfo { name: [0; 50], house_number: 0, street: [0; 50], city: [0; 50] };
    let data = AddressInfo {
        name: create_padded_array::<50>(b"Raunit", 50),
        house_number: 69,
        street: create_padded_array::<50>(b"kolkata Street", 50),
        city: create_padded_array::<50>(b"Main City", 50),
    };
    assert_eq!(info.set_inner(data), data);
    assert_eq!(info, data);
    assert_eq!(info.house_number, 69);
    assert_eq!(AddressInfo::LEN, 151);
}

#[test]
fn padded_array_copies_then_pads() {
    let a: [u8; 6] = create_padded_array(b"abcdefgh", 8);
    assert_eq!(a, *b"abcdef");
    let b: [u8; 6] = create_padded_array(b"abc", 8);
    assert_eq!(b, [b'a', b'b', b'c', 0, 0, 0]);
    let c: [u8; 6] = create_padded_array(b"abcdef", 2);
    assert_eq!(c, [b'a', b'b', 0, 0, 0, 0]);
}

#[test]
fn counter_set_inner() {
    let mut c = Counter { count: 100u64.to_le_bytes() };
    let next = Counter { count: 101u64.to_le_bytes() };
    assert_eq!(c.set_inner(next), next);
    assert_eq!(u64::from_le_bytes(c.count), 101);
}

#[test]
fn mutation_type_from_first_byte() {
    assert_eq!(MutationType::try_from(&[0u8][..]), Ok(MutationType::INCREASE));
    assert_eq!(MutationType::try_from(&[1u8, 7][..]), Ok(MutationType::DECREASE));
    assert_eq!(MutationType::try_from(&[2u8][..]), Err(ProgramError::InvalidInstructionData));
    assert_eq!(MutationType::try_from(&[][..]), Err(ProgramError::InvalidInstructionData));
}

#[test]
fn counter_error_code() {
    assert_eq!(ProgramError::from(CounterError::Overflow), ProgramError::Custom(6001));
}

#[test]
fn favorites_set_inner() {
    let mut f = Favorites { number: [0; 8], color: [0; 50], hobbies: [[0; 50]; 5], bump: 0 };
    let data = Favorites {
        number: 50u64.to_le_bytes(),
        color: create_padded_array::<50>(b"#FFFFFF", 50),
        hobbies: [
            create_padded_array::<50>(b"Reading", 50),
            create_padded_array::<50>(b"Gaming", 50),
            create_padded_array::<50>(b"Cooking", 50),
            create_padded_array::<50>(b"Traveling", 50),
            create_padded_array::<50>(b"Swimming", 50),
        ],
        bump: 254,
    };
    assert_eq!(f.set_inner(data), data);
    assert_eq!(f, data);
    assert_eq!(Favorites::LEN, 309);
}

#[test]
fn user_load() {
    let mut bytes = vec![0u8; 64];
    bytes[..6].copy_from_slice(b"raunit");
    let u = User::load(&bytes).unwrap();
    assert_eq!(&u.name[..6], b"raunit");
    assert_eq!(User::load(&bytes[..63]), Err(ProgramError::InvalidAccountData));
}
