//! An optimistic withdrawal protocol for a shared custodial vault: a wallet
//! opens a claim backed by a signed balance attestation, anyone holding a newer
//! attestation may reject it during a challenge window, and once the window has
//! passed the claim is paid out of the vault.

pub mod types;
pub mod vault;
pub mod quorum;
pub mod program;
pub mod laws;
