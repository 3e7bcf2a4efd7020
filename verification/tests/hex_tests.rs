use enpass::error::VaultError;
use enpass::hexcode::{hex_decode, hex_decode_bytes, hex_encode, hex_encode_bytes};

#[test]
fn hex_encode_known_value() {
    assert_eq!(hex_encode(&[0xde, 0xad, 0xbe, 0xef]), "deadbeef");
    assert_eq!(hex_encode(&[]), "");
    assert_eq!(hex_encode(&[0x00, 0x0f, 0xa0]), "000fa0");
}

#[test]
fn hex_encode_matches_hex_crate() {
    let data: Vec<u8> = (0u16..=255u16).map(|x| x as u8).collect();
    assert_eq!(hex_encode(&data), hex::encode(&data));
    assert_eq!(hex_encode_bytes(&data), hex::encode(&data).into_bytes());
}

#[test]
fn hex_decode_known_value() {
    assert_eq!(hex_decode("deadbeef").unwrap(), vec![0xde, 0xad, 0xbe, 0xef]);
    assert_eq!(hex_decode("DEADBEEF").unwrap(), vec![0xde, 0xad, 0xbe, 0xef]);
    assert_eq!(hex_decode("").unwrap(), Vec::<u8>::new());
}

#[test]
fn hex_decode_round_trip() {
    let data: Vec<u8> = (0u16..=255u16).map(|x| x as u8).collect();
    let text = hex_encode(&data);
    assert_eq!(hex_decode(&text).unwrap(), data);
}

#[test]
fn hex_decode_rejects_odd_length() {
    assert!(matches!(hex_decode("abc"), Err(VaultError::FromHexError)));
}

#[test]
fn hex_decode_rejects_non_digits() {
    assert!(matches!(hex_decode("zz"), Err(VaultError::FromHexError)));
    assert!(matches!(hex_decode_bytes(b"a-"), Err(VaultError::FromHexError)));
    assert!(matches!(hex_decode("a\u{e9}"), Err(VaultError::FromHexError)));
}
