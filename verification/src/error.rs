use vstd::prelude::*;

use vstd::string::StringExecFns;

use crate::textenc::{decimal_chars, u32_to_string};

verus! {

/// Raised when an item id has no row in the vault's store.
#[derive(Debug, Clone, Copy, PartialEq, Eq, Structural)]
pub struct VaultItemNotFound {
    pub id: u32,
}

/// The failure modes of opening a vault and decrypting its fields.
///
/// Store-level failures are carried as a message so that the cause can still
/// be shown to the caller.
#[derive(Debug)]
pub enum VaultError {
    FromUtf8Error,
    SqliteError { message: String },
    InvalidLength,
    FromHexError,
    AesGcmError,
    VaultItemNotFound(VaultItemNotFound),
}

/// The display line that `VaultItemNotFound::message` owes.
pub open spec fn spec_item_not_found_message(e: &VaultItemNotFound) -> Seq<char> {
    "Item "@ + decimal_chars(e.id as nat) + " not found"@
}

impl VaultItemNotFound {
    /// The display line of this error.
    pub fn message(&self) -> (r: String)
        ensures
            r@ == spec_item_not_found_message(self),
    {
        String::from_str("Item ").concat(u32_to_string(self.id).as_str()).concat(" not found")
    }
}

/// The display line that `VaultError::message` owes each variant.
pub open spec fn spec_error_message(e: &VaultError) -> Seq<char> {
    match e {
        VaultError::FromUtf8Error => "Failed to convert utf8"@,
        VaultError::SqliteError { message } => "Sqlite failure: "@ + message@,
        VaultError::InvalidLength => "Invalid length"@,
        VaultError::FromHexError => "Error getting hex data"@,
        VaultError::AesGcmError => "AES GCM error"@,
        VaultError::VaultItemNotFound(inner) => "Internal vault error: "@
            + spec_item_not_found_message(inner),
    }
}

impl VaultError {
    /// The display line of this error, naming its cause.
    pub fn message(&self) -> (r: String)
        ensures
            r@ == spec_error_message(self),
    {
        match self {
            VaultError::FromUtf8Error => String::from_str("Failed to convert utf8"),
            VaultError::SqliteError { message } => String::from_str("Sqlite failure: ").concat(
                message.as_str(),
            ),
            VaultError::InvalidLength => String::from_str("Invalid length"),
            VaultError::FromHexError => String::from_str("Error getting hex data"),
            VaultError::AesGcmError => String::from_str("AES GCM error"),
            VaultError::VaultItemNotFound(inner) => String::from_str(
                "Internal vault error: ",
            ).concat(inner.message().as_str()),
        }
    }
}

} // verus!
