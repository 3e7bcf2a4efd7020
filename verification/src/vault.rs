use vstd::prelude::*;

use vstd::string::StringExecFns;

use crate::hexcode::{hex_chars, hex_encode};
use crate::vaultmetadata::{VaultInfo, VaultOpenMode};

verus! {

/// The 64-byte key material that PBKDF2-HMAC-SHA512 stretches a passphrase
/// and salt into at the given round count.
pub uninterp spec fn pbkdf2_sha512(password: Seq<u8>, salt: Seq<u8>, rounds: u32) -> Seq<u8>;

/// Relies on `pbkdf2::pbkdf2_hmac_array` with `sha2::Sha512` and a 64-byte
/// output: the result is a function of the password, salt, and round count
/// alone, and is exactly 64 bytes long.
#[verifier::external_body]
fn pbkdf2_hmac_sha512_64(password: &[u8], salt: &[u8], rounds: u32) -> (r: Vec<u8>)
    ensures
        r@ == pbkdf2_sha512(password@, salt@, rounds),
        r@.len() == 64,
{
    pbkdf2::pbkdf2_hmac_array::<sha2::Sha512, 64>(password, salt, rounds).to_vec()
}

/// For one passphrase, salt, and iteration count, key derivation is
/// deterministic: equal inputs give byte-identical 64-byte outputs.
pub proof fn lemma_derive_key_deterministic(
    pw1: Seq<u8>,
    salt1: Seq<u8>,
    iter1: u32,
    pw2: Seq<u8>,
    salt2: Seq<u8>,
    iter2: u32,
)
    requires
        pw1 == pw2,
        salt1 == salt2,
        iter1 == iter2,
    ensures
        pbkdf2_sha512(pw1, salt1, iter1) == pbkdf2_sha512(pw2, salt2, iter2),
        pbkdf2_sha512(pw1, salt1, iter1).len() == pbkdf2_sha512(pw2, salt2, iter2).len(),
{
}

/// The store parameters a derived key unlocks a vault with: the key pragma
/// statement over the first 32 key bytes, and the fixed legacy cipher
/// compatibility level and page size the vault format requires.
#[derive(Debug)]
pub struct UnlockParams {
    pub pragma_key_statement: String,
    pub cipher_compatibility: u32,
    pub cipher_page_size: u32,
}

/// The key pragma statement text for the given 64-byte key material: only
/// its first 32 bytes name the page-encryption key, hex-encoded.
pub open spec fn pragma_key_statement_of(key_material: Seq<u8>) -> Seq<char> {
    "PRAGMA key = \"x'"@ + hex_chars(key_material.take(32)) + "'\";"@
}

/// A vault ready for key derivation: its 16-byte salt and its location.
#[derive(Debug)]
pub struct Vault {
    pub salt: Vec<u8>,
    pub vault_info: VaultInfo,
}

impl Vault {
    /// The salt is always exactly 16 bytes, read from the mode's fixed file
    /// offset.
    pub open spec fn wf(&self) -> bool {
        self.salt@.len() == 16
    }

    /// Builds a vault from its located info and the salt bytes read from the
    /// target file.
    pub fn assemble(salt: Vec<u8>, vault_info: VaultInfo) -> (r: Vault)
        requires
            salt@.len() == 16,
        ensures
            r.wf(),
            r.salt == salt,
            r.vault_info == vault_info,
    {
        Vault { salt, vault_info }
    }

    /// Stretches a passphrase into 64 bytes of key material with the vault's
    /// salt and configured iteration count.
    pub fn derive_key(&self, password: &[u8]) -> (r: Vec<u8>)
        ensures
            r@ == pbkdf2_sha512(password@, self.salt@, self.vault_info.metadata.kdf_iter),
            r@.len() == 64,
    {
        pbkdf2_hmac_sha512_64(password, self.salt.as_slice(), self.vault_info.metadata.kdf_iter)
    }

    /// Computes the parameters that unlock the vault's page store for this
    /// passphrase: the key pragma over the first 32 derived bytes, cipher
    /// compatibility 3, and a 1024-byte page size.
    pub fn login_params(&self, password: &[u8]) -> (r: UnlockParams)
        ensures
            r.pragma_key_statement@ == pragma_key_statement_of(
                pbkdf2_sha512(password@, self.salt@, self.vault_info.metadata.kdf_iter),
            ),
            r.cipher_compatibility == 3,
            r.cipher_page_size == 1024,
    {
        let derived = self.derive_key(password);
        let mut page_key: Vec<u8> = Vec::new();
        let mut i: usize = 0;
        while i < 32
            invariant
                derived@.len() == 64,
                i <= 32,
                page_key@ == derived@.take(i as int),
            decreases 32 - i,
        {
            page_key.push(derived[i]);
            i = i + 1;
        }
        let hex_key = hex_encode(page_key.as_slice());
        let stmt = String::from_str("PRAGMA key = \"x'").concat(hex_key.as_str()).concat("'\";");
        UnlockParams {
            pragma_key_statement: stmt,
            cipher_compatibility: 3,
            cipher_page_size: 1024,
        }
    }
}

/// The byte range of a mapped container file that holds the page store: the
/// bytes past the 0x400-byte header, or nothing when the file is shorter
/// than the header.
pub fn mapped_store_window(mapped_len: usize) -> (r: Option<(usize, usize)>)
    ensures
        mapped_len >= 0x400 ==> r == Some((0x400usize, (mapped_len - 0x400) as usize)),
        mapped_len < 0x400 ==> r is None,
{
    if mapped_len >= 0x400 {
        Some((0x400, mapped_len - 0x400))
    } else {
        None
    }
}

/// Whether the store is reopened over the memory mapping: only a container
/// vault whose in-memory page-access extension did load falls through to the
/// mapped path; everything else keeps the file-backed connection.
pub fn use_mapped_store(mode: &VaultOpenMode, memvfs_loaded: bool) -> (r: bool)
    ensures
        r == (mode is Mmapped && memvfs_loaded),
{
    match mode {
        VaultOpenMode::Mmapped => memvfs_loaded,
        VaultOpenMode::Direct => false,
    }
}

} // verus!
