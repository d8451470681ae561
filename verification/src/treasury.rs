//! The treasury: the accumulator of all collected early-withdrawal fees.

use vstd::prelude::*;

verus! {

/// Bookkeeping for collected fees. `total_fees` only ever grows, by exactly
/// the fee of each early withdrawal; the engine keeps it equal to the balance
/// of the treasury's vault. The two percentage fields are stored
/// configuration for downstream distribution and are not exercised by the
/// open and close transitions.
#[derive(Clone, Copy, Debug, PartialEq, Eq, Structural)]
pub struct Treasury {
    /// Identity of the administrator.
    pub admin: u64,
    /// Running total of every fee ever collected.
    pub total_fees: u64,
    /// Protocol fee percentage, in [0, 100].
    pub protocol_fee: u8,
    /// Percentage kept as reserves.
    pub reserve_percentage: u8,
}

} // verus!
