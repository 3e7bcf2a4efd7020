pub mod error;
pub mod totp;
pub mod vault;
pub mod vaultcommand;
pub mod hexcode;
pub mod textenc;
pub mod vaultmetadata;
