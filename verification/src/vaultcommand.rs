use vstd::prelude::*;

use aes_gcm::aead::Aead;
use aes_gcm::KeyInit;
use vstd::string::{StringExecFns, StrSliceExecFns, StringSliceAdditionalSpecFns};
use vstd::utf8::{decode_utf8, encode_utf8, valid_utf8, encode_utf8_valid_utf8,
    encode_utf8_decode_utf8};

use crate::error::VaultError;
use crate::hexcode::{hex_valid, hex_decoded, hex_encoded, hex_decode, hex_decode_bytes,
    hex_encode, lemma_hex_round_trip, lemma_hex_chars_utf8};
use crate::textenc::{str_eq, string_from_utf8};
use crate::totp::{totp_display, totp_field_value_at, unix_time_now};

verus! {

/// One row of a vault listing: an item's numeric id and its title.
#[derive(Debug)]
pub struct ListItem {
    pub id: i32,
    pub title: String,
}

/// A credential pair fetched and decrypted for one item.
#[derive(Debug)]
pub struct Password {
    pub username: String,
    pub password: String,
}

/// One named field of an item, as stored or as displayed.
#[derive(Debug)]
pub struct KeyValue {
    pub key: String,
    pub value: String,
}

impl DeepView for KeyValue {
    type V = (Seq<char>, Seq<char>);

    open spec fn deep_view(&self) -> (Seq<char>, Seq<char>) {
        (self.key@, self.value@)
    }
}

/// An item's stable identifier and its 48-byte key blob, fetched from the
/// store: a 32-byte AES key followed by a 16-byte nonce.
#[derive(Debug)]
pub struct ItemDetails {
    pub uuid: String,
    pub key: Vec<u8>,
}

/// What AES-256-GCM authenticated decryption yields: the plaintext when the
/// key, nonce, ciphertext, and additional authenticated data all belong
/// together, nothing otherwise.
pub uninterp spec fn aes256gcm_open(
    key: Seq<u8>,
    nonce: Seq<u8>,
    ciphertext: Seq<u8>,
    aad: Seq<u8>,
) -> Option<Seq<u8>>;

/// What AES-256-GCM sealing yields: the ciphertext with its 16-byte tag.
pub uninterp spec fn aes256gcm_seal(
    key: Seq<u8>,
    nonce: Seq<u8>,
    plaintext: Seq<u8>,
    aad: Seq<u8>,
) -> Seq<u8>;

/// Relies on `AesGcm::decrypt` of the aes-gcm crate, at a 32-byte key and a
/// 16-byte nonce: authenticated decryption is a function of key, nonce,
/// ciphertext and additional data alone, and fails whenever the tag does not
/// authenticate them together.
#[verifier::external_body]
fn aes256gcm_decrypt(key: &[u8], nonce: &[u8], ciphertext: &[u8], aad: &[u8]) -> (r: Result<
    Vec<u8>,
    VaultError,
>)
    requires
        key@.len() == 32,
        nonce@.len() == 16,
    ensures
        r matches Ok(v) ==> aes256gcm_open(key@, nonce@, ciphertext@, aad@) == Some(v@),
        r matches Err(e) ==> aes256gcm_open(key@, nonce@, ciphertext@, aad@) is None
            && e is AesGcmError,
{
    let cipher = match aes_gcm::AesGcm::<aes_gcm::aes::Aes256, aes_gcm::aes::cipher::consts::U16>::new_from_slice(
        key,
    ) {
        Ok(c) => c,
        Err(_) => return Err(VaultError::InvalidLength),
    };
    let nonce = aes_gcm::Nonce::from_slice(nonce);
    match cipher.decrypt(nonce, aes_gcm::aead::Payload { msg: ciphertext, aad }) {
        Ok(v) => Ok(v),
        Err(_) => Err(VaultError::AesGcmError),
    }
}

/// Relies on `AesGcm::encrypt` of the aes-gcm crate, at a 32-byte key and a
/// 16-byte nonce: sealing is a function of key, nonce, plaintext and
/// additional data alone, appends the 16-byte tag, succeeds for any input
/// within the cipher's 2^36-byte bounds, and authenticated decryption of its
/// result with the same key, nonce and additional data recovers the
/// plaintext.
#[verifier::external_body]
fn aes256gcm_encrypt(key: &[u8], nonce: &[u8], plaintext: &[u8], aad: &[u8]) -> (r: Result<
    Vec<u8>,
    VaultError,
>)
    requires
        key@.len() == 32,
        nonce@.len() == 16,
    ensures
        r matches Ok(v) ==> v@ == aes256gcm_seal(key@, nonce@, plaintext@, aad@) && v@.len()
            == plaintext@.len() + 16 && aes256gcm_open(key@, nonce@, v@, aad@) == Some(plaintext@),
        r matches Err(e) ==> (plaintext@.len() > 0x1000000000 || aad@.len() > 0x1000000000)
            && e is AesGcmError,
{
    let cipher = match aes_gcm::AesGcm::<aes_gcm::aes::Aes256, aes_gcm::aes::cipher::consts::U16>::new_from_slice(
        key,
    ) {
        Ok(c) => c,
        Err(_) => return Err(VaultError::InvalidLength),
    };
    let nonce = aes_gcm::Nonce::from_slice(nonce);
    match cipher.encrypt(nonce, aes_gcm::aead::Payload { msg: plaintext, aad }) {
        Ok(v) => Ok(v),
        Err(_) => Err(VaultError::AesGcmError),
    }
}

/// The byte sequence with every '-' removed.
pub open spec fn dashless(s: Seq<u8>) -> Seq<u8>
    decreases s.len(),
{
    if s.len() == 0 {
        Seq::empty()
    } else {
        dashless(s.drop_last()) + (if s.last() == 45 {
            Seq::empty()
        } else {
            seq![s.last()]
        })
    }
}

fn strip_dashes_bytes(s: &[u8]) -> (r: Vec<u8>)
    ensures
        r@ == dashless(s@),
{
    let n = s.len();
    let mut out: Vec<u8> = Vec::new();
    let mut i: usize = 0;
    while i < n
        invariant
            n == s@.len(),
            i <= n,
            out@ == dashless(s@.take(i as int)),
        decreases n - i,
    {
        proof {
            assert(s@.take(i as int + 1).drop_last() =~= s@.take(i as int));
        }
        if s[i] != 45 {
            out.push(s[i]);
        }
        i = i + 1;
    }
    proof {
        assert(s@.take(n as int) =~= s@);
    }
    out
}

fn bytes_range(s: &[u8], from: usize, to: usize) -> (r: Vec<u8>)
    requires
        from <= to <= s@.len(),
    ensures
        r@ == s@.subrange(from as int, to as int),
{
    let mut out: Vec<u8> = Vec::new();
    let mut i: usize = from;
    while i < to
        invariant
            from <= i <= to <= s@.len(),
            out@ == s@.subrange(from as int, i as int),
        decreases to - i,
    {
        out.push(s[i]);
        i = i + 1;
        proof {
            assert(s@.subrange(from as int, i as int) =~= s@.subrange(
                from as int,
                i as int - 1,
            ).push(s@[i as int - 1]));
        }
    }
    out
}

/// Which step of field decryption fails.
pub enum FieldError {
    KeyLength,
    Hex,
    Auth,
    Utf8,
}

/// The error a failing decryption step surfaces as.
pub open spec fn err_matches(f: FieldError, e: &VaultError) -> bool {
    match f {
        FieldError::KeyLength => e is InvalidLength,
        FieldError::Hex => e is FromHexError,
        FieldError::Auth => e is AesGcmError,
        FieldError::Utf8 => e is FromUtf8Error,
    }
}

/// What decrypting one field yields: the item key blob must be 48 bytes,
/// the UUID without its dashes and the stored value must be hexadecimal
/// text, the tag must authenticate, and the recovered bytes must be UTF-8.
pub open spec fn spec_decrypt_field(ct_hex: Seq<u8>, uuid: Seq<u8>, item_key: Seq<u8>) -> Result<
    Seq<char>,
    FieldError,
> {
    if item_key.len() != 48 {
        Err(FieldError::KeyLength)
    } else {
        let aad_hex = dashless(uuid);
        if !hex_valid(aad_hex) {
            Err(FieldError::Hex)
        } else if !hex_valid(ct_hex) {
            Err(FieldError::Hex)
        } else {
            match aes256gcm_open(
                item_key.take(32),
                item_key.skip(32),
                hex_decoded(ct_hex),
                hex_decoded(aad_hex),
            ) {
                None => Err(FieldError::Auth),
                Some(pt) => if valid_utf8(pt) {
                    Ok(decode_utf8(pt))
                } else {
                    Err(FieldError::Utf8)
                },
            }
        }
    }
}

/// The result `r` is what outcome `o` prescribes: the exact recovered text,
/// or the error of the failing step.
pub open spec fn decrypt_matches(r: &Result<String, VaultError>, o: Result<
    Seq<char>,
    FieldError,
>) -> bool {
    match r {
        Ok(s) => o == Ok::<Seq<char>, FieldError>(s@),
        Err(e) => match o {
            Ok(_) => false,
            Err(f) => err_matches(f, e),
        },
    }
}

/// Decrypts one stored field value: the 48-byte item key blob carries the
/// AES key and nonce, the item's UUID with its dashes removed is hex-decoded
/// into the additional authenticated data, the stored value is hex-decoded
/// into the ciphertext, and the recovered bytes are read as UTF-8 text.
pub fn decrypt_password(password: &str, uuid: &str, item_key: &Vec<u8>) -> (r: Result<
    String,
    VaultError,
>)
    ensures
        decrypt_matches(&r, spec_decrypt_field(password.spec_bytes(), uuid.spec_bytes(), item_key@)),
{
    if item_key.len() != 48 {
        return Err(VaultError::InvalidLength);
    }
    let aad_hex = strip_dashes_bytes(uuid.as_bytes());
    let header = match hex_decode_bytes(aad_hex.as_slice()) {
        Ok(v) => v,
        Err(e) => {
            return Err(e);
        },
    };
    let value = match hex_decode(password) {
        Ok(v) => v,
        Err(e) => {
            return Err(e);
        },
    };
    let key = bytes_range(item_key.as_slice(), 0, 32);
    let nonce = bytes_range(item_key.as_slice(), 32, 48);
    proof {
        assert(key@ =~= item_key@.take(32));
        assert(nonce@ =~= item_key@.skip(32));
    }
    let plain = match aes256gcm_decrypt(
        key.as_slice(),
        nonce.as_slice(),
        value.as_slice(),
        header.as_slice(),
    ) {
        Ok(v) => v,
        Err(e) => {
            return Err(e);
        },
    };
    string_from_utf8(plain)
}

/// Seals a field value exactly as the vault's encryption does: AES-256-GCM
/// under the item key blob's key and nonce, authenticated by the
/// UUID-derived data, with the ciphertext stored as lowercase hexadecimal
/// text. Decrypting the result with the same UUID and item key recovers the
/// value.
pub fn encrypt_field(plaintext: &str, uuid: &str, item_key: &Vec<u8>) -> (r: Result<
    String,
    VaultError,
>)
    ensures
        r matches Ok(ct) ==> spec_decrypt_field(encode_utf8(ct@), uuid.spec_bytes(), item_key@)
            == Ok::<Seq<char>, FieldError>(plaintext@),
        item_key@.len() != 48 ==> (r matches Err(e) && e is InvalidLength),
        item_key@.len() == 48 && !hex_valid(dashless(uuid.spec_bytes())) ==> (r matches Err(e)
            && e is FromHexError),
        item_key@.len() == 48 && hex_valid(dashless(uuid.spec_bytes()))
            && plaintext.spec_bytes().len() <= 0x1000000000 && dashless(
            uuid.spec_bytes(),
        ).len() <= 0x1000000000 ==> r is Ok,
{
    if item_key.len() != 48 {
        return Err(VaultError::InvalidLength);
    }
    let aad_hex = strip_dashes_bytes(uuid.as_bytes());
    let header = match hex_decode_bytes(aad_hex.as_slice()) {
        Ok(v) => v,
        Err(e) => {
            return Err(e);
        },
    };
    let key = bytes_range(item_key.as_slice(), 0, 32);
    let nonce = bytes_range(item_key.as_slice(), 32, 48);
    proof {
        assert(key@ =~= item_key@.take(32));
        assert(nonce@ =~= item_key@.skip(32));
    }
    let sealed = match aes256gcm_encrypt(
        key.as_slice(),
        nonce.as_slice(),
        plaintext.as_bytes(),
        header.as_slice(),
    ) {
        Ok(v) => v,
        Err(e) => {
            return Err(e);
        },
    };
    let ct = hex_encode(sealed.as_slice());
    proof {
        lemma_hex_chars_utf8(sealed@);
        lemma_hex_round_trip(sealed@);
        encode_utf8_valid_utf8(plaintext@);
        encode_utf8_decode_utf8(plaintext@);
        assert(encode_utf8(ct@) =~= hex_encoded(sealed@));
    }
    Ok(ct)
}

/// Builds the decrypted credential pair of an item from its fetched
/// username and encrypted password values.
pub fn password_entry(username: String, password_hex: &str, uuid: &str, item_key: &Vec<u8>) -> (r:
    Result<Password, VaultError>)
    ensures
        ({
            let o = spec_decrypt_field(password_hex.spec_bytes(), uuid.spec_bytes(), item_key@);
            match r {
                Ok(p) => p.username == username && o == Ok::<Seq<char>, FieldError>(p.password@),
                Err(e) => o matches Err(f) && err_matches(f, &e),
            }
        }),
{
    match decrypt_password(password_hex, uuid, item_key) {
        Ok(plain) => Ok(Password { username, password: plain }),
        Err(e) => Err(e),
    }
}

/// What one field shows when dumped: a non-empty password value is
/// decrypted, an empty one passes through untouched and is never fed to the
/// cipher, a TOTP value is enriched with its code, and every other value
/// shows as stored.
pub open spec fn spec_field_display(
    key: Seq<char>,
    value: Seq<char>,
    uuid: Seq<u8>,
    item_key: Seq<u8>,
    time: u64,
) -> Result<Seq<char>, FieldError> {
    if key == "password"@ {
        if value.len() == 0 {
            Ok(value)
        } else {
            spec_decrypt_field(encode_utf8(value), uuid, item_key)
        }
    } else if key == "totp"@ {
        Ok(totp_display(value, time))
    } else {
        Ok(value)
    }
}

/// Renders one field of an item for display at the given Unix time.
pub fn field_display_value_at(
    key: &str,
    value: &str,
    uuid: &str,
    item_key: &Vec<u8>,
    time: u64,
) -> (r: Result<String, VaultError>)
    ensures
        ({
            let o = spec_field_display(key@, value@, uuid.spec_bytes(), item_key@, time);
            match r {
                Ok(s) => o == Ok::<Seq<char>, FieldError>(s@),
                Err(e) => o matches Err(f) && err_matches(f, &e),
            }
        }),
{
    if str_eq(key, "password") {
        if value.is_empty() {
            Ok(String::from_str(value))
        } else {
            decrypt_password(value, uuid, item_key)
        }
    } else if str_eq(key, "totp") {
        Ok(totp_field_value_at(value, time))
    } else {
        Ok(String::from_str(value))
    }
}

/// The rows a dump shows at a given time: each field is rendered by
/// `spec_field_display`; the first row whose rendering fails makes the whole
/// dump fail with that step's error; otherwise rows whose rendered value is
/// empty are left out, in order.
pub open spec fn spec_dump(
    rows: Seq<(Seq<char>, Seq<char>)>,
    uuid: Seq<u8>,
    item_key: Seq<u8>,
    time: u64,
) -> Result<Seq<(Seq<char>, Seq<char>)>, FieldError>
    decreases rows.len(),
{
    if rows.len() == 0 {
        Ok(Seq::empty())
    } else {
        match spec_dump(rows.drop_last(), uuid, item_key, time) {
            Err(f) => Err(f),
            Ok(head) => {
                let row = rows.last();
                match spec_field_display(row.0, row.1, uuid, item_key, time) {
                    Err(f) => Err(f),
                    Ok(v) => if v.len() > 0 {
                        Ok(head + seq![(row.0, v)])
                    } else {
                        Ok(head)
                    },
                }
            },
        }
    }
}

/// Once a prefix of the rows fails, every longer prefix fails with the same
/// error: the first failing row decides the dump.
proof fn lemma_spec_dump_err_persists(
    rows: Seq<(Seq<char>, Seq<char>)>,
    uuid: Seq<u8>,
    item_key: Seq<u8>,
    time: u64,
    i: int,
)
    requires
        0 <= i <= rows.len(),
        spec_dump(rows.take(i), uuid, item_key, time) is Err,
    ensures
        spec_dump(rows, uuid, item_key, time) == spec_dump(rows.take(i), uuid, item_key, time),
    decreases rows.len() - i,
{
    if i == rows.len() {
        assert(rows.take(i) =~= rows);
    } else {
        assert(rows.take(i + 1).drop_last() =~= rows.take(i));
        lemma_spec_dump_err_persists(rows, uuid, item_key, time, i + 1);
    }
}

/// Renders an item's fetched fields for display at the given Unix time:
/// empty rendered values are left out, and the first field that fails to
/// render fails the whole call with its error.
pub fn dump_fields_at(rows: &Vec<KeyValue>, uuid: &str, item_key: &Vec<u8>, time: u64) -> (r:
    Result<Vec<KeyValue>, VaultError>)
    ensures
        ({
            let o = spec_dump(rows.deep_view(), uuid.spec_bytes(), item_key@, time);
            match r {
                Ok(out) => o == Ok::<Seq<(Seq<char>, Seq<char>)>, FieldError>(out.deep_view()),
                Err(e) => o matches Err(f) && err_matches(f, &e),
            }
        }),
{
    let n = rows.len();
    let mut out: Vec<KeyValue> = Vec::new();
    let mut i: usize = 0;
    proof {
        assert(rows.deep_view().take(0) =~= Seq::<(Seq<char>, Seq<char>)>::empty());
        assert(out.deep_view() =~= Seq::<(Seq<char>, Seq<char>)>::empty());
    }
    while i < n
        invariant
            n == rows@.len(),
            i <= n,
            spec_dump(rows.deep_view().take(i as int), uuid.spec_bytes(), item_key@, time) == Ok::<
                Seq<(Seq<char>, Seq<char>)>,
                FieldError,
            >(out.deep_view()),
        decreases n - i,
    {
        proof {
            assert(rows.deep_view().take(i as int + 1).drop_last() =~= rows.deep_view().take(
                i as int,
            ));
        }
        let row = &rows[i];
        match field_display_value_at(row.key.as_str(), row.value.as_str(), uuid, item_key, time) {
            Ok(v) => {
                if !v.as_str().is_empty() {
                    out.push(KeyValue { key: row.key.clone(), value: v });
                    proof {
                        assert(spec_dump(
                            rows.deep_view().take(i as int + 1),
                            uuid.spec_bytes(),
                            item_key@,
                            time,
                        ) matches Ok(o) && o =~= out.deep_view());
                    }
                }
            },
            Err(e) => {
                proof {
                    lemma_spec_dump_err_persists(
                        rows.deep_view(),
                        uuid.spec_bytes(),
                        item_key@,
                        time,
                        i as int + 1,
                    );
                }
                return Err(e);
            },
        }
        i = i + 1;
    }
    proof {
        assert(rows.deep_view().take(n as int) =~= rows.deep_view());
    }
    Ok(out)
}

/// Renders an item's fetched fields for display at the current time.
pub fn dump_fields(rows: &Vec<KeyValue>, uuid: &str, item_key: &Vec<u8>) -> (r: Result<
    Vec<KeyValue>,
    VaultError,
>)
    ensures
        exists|t: u64|
            #![trigger spec_dump(rows.deep_view(), uuid.spec_bytes(), item_key@, t)]
            ({
                let o = spec_dump(rows.deep_view(), uuid.spec_bytes(), item_key@, t);
                match r {
                    Ok(out) => o == Ok::<Seq<(Seq<char>, Seq<char>)>, FieldError>(out.deep_view()),
                    Err(e) => o matches Err(f) && err_matches(f, &e),
                }
            }),
{
    let t = unix_time_now();
    let r = dump_fields_at(rows, uuid, item_key, t);
    proof {
        let o = spec_dump(rows.deep_view(), uuid.spec_bytes(), item_key@, t);
        assert(match r {
            Ok(out) => o == Ok::<Seq<(Seq<char>, Seq<char>)>, FieldError>(out.deep_view()),
            Err(e) => o matches Err(f) && err_matches(f, &e),
        });
    }
    r
}

} // verus!
