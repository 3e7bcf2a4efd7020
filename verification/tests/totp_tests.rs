use enpass::error::VaultError;
use enpass::totp::{totp_field_value, totp_field_value_at};
use enpass::vaultcommand::{dump_fields_at, encrypt_field, field_display_value_at, KeyValue};

const UUID: &str = "00112233-4455-6677-8899-aabbccddeeff";

// The base32 form of the 20-byte ASCII secret "12345678901234567890", whose
// SHA-1 TOTP codes at fixed times are given by RFC 6238's test vectors.
const RFC_SEED: &str = "gezdgnbvgy3tqojqgezdgnbvgy3tqojq";

fn item_key() -> Vec<u8> {
    (0u8..48u8).collect()
}

#[test]
fn totp_rfc6238_vector_at_t59() {
    // At Unix time 59 the RFC gives 94287082 for eight digits; the default
    // six keep its low six.
    let shown = totp_field_value_at(RFC_SEED, 59);
    assert_eq!(shown, format!("{} => 287082", RFC_SEED));
}

#[test]
fn totp_rfc6238_vector_at_t1111111109() {
    // RFC value 07081804.
    let shown = totp_field_value_at(RFC_SEED, 1111111109);
    assert_eq!(shown, format!("{} => 081804", RFC_SEED));
}

#[test]
fn totp_undecodable_seed_unchanged() {
    // The lowercase alphabet leaves an uppercase seed undecodable.
    assert_eq!(totp_field_value_at("JBSWY3DPEHPK3PXP", 59), "JBSWY3DPEHPK3PXP");
    assert_eq!(totp_field_value_at("8888", 59), "8888");
    assert_eq!(totp_field_value("not base32!"), "not base32!");
}

#[test]
fn totp_now_is_six_digits() {
    let shown = totp_field_value("jbswy3dpehpk3pxp");
    let (seed, code) = shown.split_once(" => ").unwrap();
    assert_eq!(seed, "jbswy3dpehpk3pxp");
    assert_eq!(code.len(), 6);
    assert!(code.chars().all(|c| c.is_ascii_digit()));
}

#[test]
fn field_display_empty_password_is_exempt() {
    let key = item_key();
    let shown = field_display_value_at("password", "", UUID, &key, 59).unwrap();
    assert_eq!(shown, "");
}

#[test]
fn field_display_decrypts_password() {
    let key = item_key();
    let ct = encrypt_field("secret123", UUID, &key).unwrap();
    let shown = field_display_value_at("password", &ct, UUID, &key, 59).unwrap();
    assert_eq!(shown, "secret123");
}

#[test]
fn field_display_passes_other_fields_through() {
    let key = item_key();
    let shown = field_display_value_at("username", "user@example.com", UUID, &key, 59).unwrap();
    assert_eq!(shown, "user@example.com");
}

#[test]
fn dump_renders_filters_and_keeps_order() {
    let key = item_key();
    let ct = encrypt_field("secret123", UUID, &key).unwrap();
    let rows = vec![
        KeyValue { key: String::from("username"), value: String::from("user@example.com") },
        KeyValue { key: String::from("password"), value: ct },
        KeyValue { key: String::from("note"), value: String::from("") },
        KeyValue { key: String::from("totp"), value: String::from(RFC_SEED) },
        KeyValue { key: String::from("url"), value: String::from("https://example.com") },
    ];
    let shown = dump_fields_at(&rows, UUID, &key, 59).unwrap();
    let pairs: Vec<(String, String)> =
        shown.into_iter().map(|kv| (kv.key, kv.value)).collect();
    assert_eq!(
        pairs,
        vec![
            (String::from("username"), String::from("user@example.com")),
            (String::from("password"), String::from("secret123")),
            (String::from("totp"), format!("{} => 287082", RFC_SEED)),
            (String::from("url"), String::from("https://example.com")),
        ]
    );
}

#[test]
fn dump_fails_on_undecryptable_row() {
    let key = item_key();
    let rows = vec![
        KeyValue { key: String::from("password"), value: String::from("00ff00ff") },
        KeyValue { key: String::from("username"), value: String::from("u") },
    ];
    let r = dump_fields_at(&rows, UUID, &key, 59);
    assert!(matches!(r, Err(VaultError::AesGcmError)));

    let rows = vec![KeyValue { key: String::from("password"), value: String::from("secret") }];
    let r = dump_fields_at(&rows, UUID, &vec![0u8; 4], 59);
    assert!(matches!(r, Err(VaultError::InvalidLength)));
}

#[test]
fn dump_first_failing_row_decides() {
    let key = item_key();
    let rows = vec![
        KeyValue { key: String::from("password"), value: String::from("zz") },
        KeyValue { key: String::from("password"), value: String::from("00ff00ff") },
    ];
    let r = dump_fields_at(&rows, UUID, &key, 59);
    assert!(matches!(r, Err(VaultError::FromHexError)));
}

#[test]
fn dump_empty_password_row_is_dropped_not_decrypted() {
    let key = item_key();
    let rows = vec![KeyValue { key: String::from("password"), value: String::from("") }];
    let shown = dump_fields_at(&rows, UUID, &key, 59).unwrap();
    assert!(shown.is_empty());
}
