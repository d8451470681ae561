//! A custody and staking engine: owners lock a fungible asset for a chosen
//! duration and reclaim it later, paying a percentage fee when they reclaim
//! early. Stake records are addressed by (owner, sequence number), escrowed
//! funds live in label-addressed vaults whose only authorizer is the engine's
//! own transition logic, and collected fees accumulate in a treasury.

pub mod errors;
pub mod vault;
pub mod stake;
pub mod treasury;
pub mod fees;
pub mod engine;
pub mod fpl;
