//! A vault for one depositor's tokens, with a program-derived signer that moves the
//! tokens back out and drives a margin account on the 01 exchange.
pub mod accounts;
pub mod cpi;
pub mod instructions;
pub mod laws;
pub mod pubkey;
pub mod vault;

pub use pubkey::Pubkey;
pub use vault::{Vault, VaultError, ZoOrderType};
