use shredlink_client::address::{Address, AddressError, ADDRESS_LEN};
use shredlink_client::pumpfun::TARGET_MINT_AUTHORITY;

const MINT_AUTHORITY_TEXT: &str = "TSLvdd1pWpHVjahSpsvCXUbgwsL3JAcvokwaKt1eokM";
const TOKEN_PROGRAM_TEXT: &str = "TokenkegQfeZyiNwAJbNbGKPFXCWuBvf9Ss623VQ5DA";
const TOKEN_PROGRAM: [u8; 32] = [
    6, 221, 246, 225, 215, 101, 161, 147, 217, 203, 225, 70, 206, 235, 121, 172, 28, 180, 133,
    237, 95, 91, 55, 145, 58, 140, 245, 133, 126, 255, 0, 169,
];

fn counting() -> [u8; 32] {
    let mut bytes = [0u8; 32];
    for (i, byte) in bytes.iter_mut().enumerate() {
        *byte = i as u8 + 1;
    }
    bytes
}

#[test]
fn address_length_is_32() {
    assert_eq!(ADDRESS_LEN, 32);
}

#[test]
fn to_base58_of_known_addresses() {
    assert_eq!(Address::new(TOKEN_PROGRAM).to_base58(), TOKEN_PROGRAM_TEXT);
    assert_eq!(Address::new(TARGET_MINT_AUTHORITY).to_base58(), MINT_AUTHORITY_TEXT);
    assert_eq!(
        Address::new(counting()).to_base58(),
        "4wBqpZM9xaSheZzJSMawUKKwhdpChKbZ5eu5ky4Vigw"
    );
    assert_eq!(
        Address::new([9u8; 32]).to_base58(),
        "cGfHiC6Kgg3FpFZvgwGcswsCRtp4aBP2fzuXRQPizuN"
    );
}

#[test]
fn to_base58_writes_one_symbol_for_each_leading_zero_byte() {
    assert_eq!(Address::new([0u8; 32]).to_base58(), "11111111111111111111111111111111");
    let mut bytes = [5u8; 32];
    bytes[0] = 0;
    bytes[1] = 0;
    bytes[2] = 1;
    assert_eq!(Address::new(bytes).to_base58(), "11CrGkhwq3FSpc4SdfJ7gAqL51R267VE7Laq5HPVMW");
}

#[test]
fn to_base58_of_the_largest_address_has_44_symbols() {
    let text = Address::new([255u8; 32]).to_base58();
    assert_eq!(text, "JEKNVnkbo3jma5nREBBJCDoXFVeKkD56V3xKrvRmWxFG");
    assert_eq!(text.len(), 44);
}

#[test]
fn to_base58_does_not_hand_back_the_bytes() {
    let address = Address::new(counting());
    assert_ne!(address.to_base58().as_bytes(), address.as_bytes());
}

#[test]
fn from_base58_of_known_texts() {
    assert_eq!(Address::from_base58(TOKEN_PROGRAM_TEXT), Ok(Address::new(TOKEN_PROGRAM)));
    assert_eq!(
        Address::from_base58(MINT_AUTHORITY_TEXT),
        Ok(Address::new(TARGET_MINT_AUTHORITY))
    );
    assert_eq!(
        Address::from_base58("11111111111111111111111111111111"),
        Ok(Address::new([0u8; 32]))
    );
}

#[test]
fn from_base58_does_not_hand_back_the_text() {
    let address = Address::from_base58(TOKEN_PROGRAM_TEXT).unwrap();
    assert_eq!(address.as_bytes().len(), 32);
    assert_ne!(address.as_bytes(), TOKEN_PROGRAM_TEXT.as_bytes());
}

#[test]
fn from_base58_refuses_characters_outside_the_alphabet() {
    for outsider in ["0", "O", "I", "l", " ", "-", "é"] {
        let text = format!("{}{}", &TOKEN_PROGRAM_TEXT[..42], outsider);
        assert_eq!(Address::from_base58(&text), Err(AddressError::NotBase58));
    }
}

#[test]
fn from_base58_refuses_other_lengths() {
    assert_eq!(Address::from_base58(""), Err(AddressError::WrongLength));
    assert_eq!(Address::from_base58("2"), Err(AddressError::WrongLength));
    assert_eq!(
        Address::from_base58("tVojvhToWjQ8Xvo4UPx2Xz9eRy7auyYMmZBjc2XfN"),
        Err(AddressError::WrongLength)
    );
    assert_eq!(
        Address::from_base58("JJEfe6DcPM2ziB2vfUWDV6aHVerXRGkv3TcyvJUNGHZz"),
        Err(AddressError::WrongLength)
    );
    assert_eq!(
        Address::from_base58("1111111111111111111111111111111"),
        Err(AddressError::WrongLength)
    );
    assert_eq!(
        Address::from_base58("111111111111111111111111111111111"),
        Err(AddressError::WrongLength)
    );
}

#[test]
fn round_trip_from_bytes() {
    let samples = [
        [0u8; 32],
        [255u8; 32],
        counting(),
        TOKEN_PROGRAM,
        TARGET_MINT_AUTHORITY,
    ];
    for bytes in samples {
        let address = Address::new(bytes);
        let back = Address::from_base58(&address.to_base58());
        assert_eq!(back, Ok(address));
        assert_eq!(back.unwrap().as_bytes(), &bytes[..]);
    }
}

#[test]
fn round_trip_from_bytes_with_leading_zeros() {
    for zeros in 0..=32 {
        let mut bytes = [0xabu8; 32];
        for byte in bytes.iter_mut().take(zeros) {
            *byte = 0;
        }
        let text = Address::new(bytes).to_base58();
        assert_eq!(text.chars().take_while(|c| *c == '1').count(), zeros);
        assert_eq!(Address::from_base58(&text), Ok(Address::new(bytes)));
    }
}

#[test]
fn round_trip_from_text() {
    for text in [TOKEN_PROGRAM_TEXT, MINT_AUTHORITY_TEXT, "So11111111111111111111111111111111111111112"] {
        assert_eq!(Address::from_base58(text).unwrap().to_base58(), text);
    }
}

#[test]
fn from_slice_takes_32_bytes_only() {
    assert_eq!(Address::from_slice(&TOKEN_PROGRAM), Some(Address::new(TOKEN_PROGRAM)));
    assert_eq!(Address::from_slice(&TOKEN_PROGRAM[..31]), None);
    assert_eq!(Address::from_slice(&[1u8; 33]), None);
    assert_eq!(Address::from_slice(&[]), None);
}

#[test]
fn is_key_compares_bytes() {
    let address = Address::new(TOKEN_PROGRAM);
    assert!(address.is_key(&TOKEN_PROGRAM));
    assert!(!address.is_key(&TOKEN_PROGRAM[..31]));
    assert!(!address.is_key(&TARGET_MINT_AUTHORITY));
    let mut other = TOKEN_PROGRAM;
    other[31] ^= 1;
    assert!(!address.is_key(&other));
}
