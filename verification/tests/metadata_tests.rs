use enpass::vaultmetadata::{
    descriptor_metadata, locate, parse_metadata, salt_offset, DescriptorSource, VaultMetadata,
    VaultOpenMode,
};

fn assert_default(m: &VaultMetadata) {
    assert_eq!(m.encryption_algo, "pbkdf2");
    assert_eq!(m.have_keyfile, false);
    assert_eq!(m.kdf_algo, "pbkdf2");
    assert_eq!(m.kdf_iter, 100000);
    assert_eq!(m.vault_uuid, "primary");
    assert_eq!(m.version, 6);
}

#[test]
fn metadata_empty_object_defaults() {
    let m = parse_metadata("{}");
    assert_default(&m);
}

#[test]
fn metadata_partial_object_keeps_rest_default() {
    let m = parse_metadata("{\"kdf_iter\": 50000}");
    assert_eq!(m.kdf_iter, 50000);
    assert_eq!(m.kdf_algo, "pbkdf2");
    assert_eq!(m.encryption_algo, "pbkdf2");
    assert_eq!(m.vault_uuid, "primary");
    assert_eq!(m.version, 6);
    assert_eq!(m.have_keyfile, false);
}

#[test]
fn metadata_full_object() {
    let m = parse_metadata(
        "{\"encryption_algo\": \"aes-256-cbc\", \"have_keyfile\": 1, \"kdf_algo\": \"scrypt\", \
         \"kdf_iter\": 320000, \"vault_uuid\": \"abc-def\", \"version\": 7}",
    );
    assert_eq!(m.encryption_algo, "aes-256-cbc");
    assert_eq!(m.have_keyfile, true);
    assert_eq!(m.kdf_algo, "scrypt");
    assert_eq!(m.kdf_iter, 320000);
    assert_eq!(m.vault_uuid, "abc-def");
    assert_eq!(m.version, 7);
}

#[test]
fn metadata_mistyped_fields_default_independently() {
    let m = parse_metadata("{\"kdf_iter\": \"many\", \"vault_uuid\": \"abc\"}");
    assert_eq!(m.kdf_iter, 100000);
    assert_eq!(m.vault_uuid, "abc");
}

#[test]
fn metadata_keyfile_zero_is_false() {
    let m = parse_metadata("{\"have_keyfile\": 0}");
    assert_eq!(m.have_keyfile, false);
    let m = parse_metadata("{\"have_keyfile\": -1}");
    assert_eq!(m.have_keyfile, true);
}

#[test]
fn metadata_broken_json_all_defaults() {
    let m = parse_metadata("not json at all");
    assert_default(&m);
}

#[test]
fn metadata_default_record() {
    let m = VaultMetadata::default();
    assert_default(&m);
}

#[test]
fn descriptor_stops_at_first_nul() {
    let mut buf = b"{\"kdf_iter\": 42}".to_vec();
    buf.push(0);
    buf.extend_from_slice(b"garbage past the terminator");
    let m = descriptor_metadata(&buf);
    assert_eq!(m.kdf_iter, 42);
    assert_eq!(m.vault_uuid, "primary");
}

#[test]
fn descriptor_invalid_utf8_defaults() {
    let m = descriptor_metadata(&[0xff, 0xfe, 0x7b, 0x7d]);
    assert_default(&m);
}

#[test]
fn locate_json_descriptor() {
    let plan = locate("/vaults/main.json");
    assert_eq!(plan.target_path, "/vaults/main.enpassdb");
    assert!(matches!(plan.open_method, VaultOpenMode::Direct));
    match plan.descriptor {
        DescriptorSource::Required(d) => assert_eq!(d, "/vaults/main.json"),
        _ => panic!("descriptor must be required"),
    }
}

#[test]
fn locate_container_sync() {
    let plan = locate("vault.enpassdbsync");
    assert_eq!(plan.target_path, "vault.enpassdbsync");
    assert!(matches!(plan.open_method, VaultOpenMode::Mmapped));
    match plan.descriptor {
        DescriptorSource::Required(d) => assert_eq!(d, "vault.enpassdbsync"),
        _ => panic!("descriptor must be required"),
    }
}

#[test]
fn locate_native_vault_with_sibling() {
    let plan = locate("walletx/vault.enpassdb");
    assert_eq!(plan.target_path, "walletx/vault.enpassdb");
    assert!(matches!(plan.open_method, VaultOpenMode::Direct));
    match plan.descriptor {
        DescriptorSource::Optional(d) => assert_eq!(d, "walletx/vault.json"),
        _ => panic!("descriptor must be the optional sibling"),
    }
}

#[test]
fn locate_unknown_extension_defaults() {
    let plan = locate("vault.sqlite");
    assert_eq!(plan.target_path, "vault.sqlite");
    assert!(matches!(plan.open_method, VaultOpenMode::Direct));
    assert!(matches!(plan.descriptor, DescriptorSource::Defaults));
}

#[test]
fn locate_no_extension_defaults() {
    let plan = locate("vault");
    assert_eq!(plan.target_path, "vault");
    assert!(matches!(plan.open_method, VaultOpenMode::Direct));
    assert!(matches!(plan.descriptor, DescriptorSource::Defaults));

    let plan = locate("dir.d/vault");
    assert!(matches!(plan.descriptor, DescriptorSource::Defaults));

    let plan = locate(".enpassdb");
    assert!(matches!(plan.descriptor, DescriptorSource::Defaults));

    let plan = locate("");
    assert_eq!(plan.target_path, "");
    assert!(matches!(plan.descriptor, DescriptorSource::Defaults));
}

#[test]
fn salt_offsets_per_mode() {
    assert_eq!(salt_offset(&VaultOpenMode::Direct), 0);
    assert_eq!(salt_offset(&VaultOpenMode::Mmapped), 0x400);
}
