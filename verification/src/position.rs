use vstd::prelude::*;
use crate::address::Address;

verus! {

/// What the contract records of one position.
#[derive(Copy, Clone, Debug, PartialEq, Eq, Structural)]
pub struct PositionMetadata {
    pub owner: Address,
    pub pool: Address,
    pub tick_lower: i32,
    pub tick_upper: i32,
    pub liquidity: u128,
    /// Ledger timestamp (Unix seconds) at which the position was minted.
    pub created_at: u64,
}

/// One side of a transfer: an address, or the zero party that stands for
/// "nobody" when a token is minted or burned.
#[derive(Copy, Clone, Debug, PartialEq, Eq, Structural)]
pub enum Party {
    Zero,
    Account(Address),
}

/// The transfer event that the contract publishes when a token is minted,
/// transferred or burned.
#[derive(Copy, Clone, Debug, PartialEq, Eq, Structural)]
pub struct TransferEvent {
    pub from: Party,
    pub to: Party,
    pub token_id: u64,
}

} // verus!
