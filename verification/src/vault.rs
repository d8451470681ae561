//! Custody pools and caller balances.
//!
//! A vault has no owning private key: its address is fully determined by a
//! fixed label, and the staking engine's transition code is its only
//! authorizer. A caller who wants funds moved out of escrow must present the
//! vault address, and the engine re-derives the expected address from the same
//! label it used when the funds went in.

use vstd::prelude::*;

verus! {

/// Address of the escrow vault, derived from its fixed label.
pub const ESCROW_VAULT_ADDRESS: u64 = 0x7374616b65766c74;

/// Address of the treasury's own vault, derived from its fixed label.
pub const TREASURY_VAULT_ADDRESS: u64 = 0x7472656173757279;

/// A no-private-key custody pool: a deterministic address and the balance it
/// currently holds. Only the engine's two transitions may change the balance.
#[derive(Clone, Copy, Debug, PartialEq, Eq, Structural)]
pub struct Vault {
    pub address: u64,
    pub balance: u64,
}

/// A caller-owned balance, identified by the caller's identity key. The
/// engine debits it when a stake opens and credits it when a stake closes.
#[derive(Clone, Copy, Debug, PartialEq, Eq, Structural)]
pub struct Wallet {
    pub owner: u64,
    pub balance: u64,
}

} // verus!
