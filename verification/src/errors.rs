//! The failure taxonomy of the engine. Every failing transition reports one of
//! these codes and leaves no effect behind.

use vstd::prelude::*;

verus! {

/// Why a transition was rejected.
///
/// Validation errors (`InvalidFplId`, `InvalidStakeAmount`,
/// `InvalidLockPeriod`) mean the caller's input fell outside the configured
/// bounds; `UnauthorizedAccess` means an identity or vault-address mismatch;
/// `StakeNotActive` means the target record is already closed;
/// `InsufficientFunds` means the underlying balance could not cover the
/// requested transfer.
#[derive(Clone, Copy, Debug, PartialEq, Eq, Structural)]
pub enum ErrorCode {
    InvalidFplId,
    InvalidStakeAmount,
    InsufficientFunds,
    InvalidLockPeriod,
    UnauthorizedAccess,
    StakeNotActive,
}

} // verus!
