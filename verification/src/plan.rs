//! The decisions of each contract call, given what the call read from the
//! contract's storage. Each returns what the call writes and publishes, or
//! the error it returns.

use vstd::prelude::*;
use crate::address::Address;
use crate::error::PositionNftError;
use crate::position::{Party, PositionMetadata, TransferEvent};

verus! {

/// The value of the stored next-id counter, zero when it was never written.
pub open spec fn counter_value(stored_next_id: Option<u64>) -> u64 {
    match stored_next_id {
        Some(n) => n,
        None => 0,
    }
}

/// The value of the stored next-id counter, zero when it was never written.
pub fn supply_or_zero(stored_next_id: Option<u64>) -> (n: u64)
    ensures
        n == counter_value(stored_next_id),
{
    match stored_next_id {
        Some(n) => n,
        None => 0,
    }
}

/// Initialization is refused once a minter is stored.
pub fn plan_initialize(minter_stored: bool) -> (r: Result<(), PositionNftError>)
    ensures
        r == (if minter_stored {
            Err(PositionNftError::NotAuthorized)
        } else {
            Ok(())
        }),
{
    if minter_stored {
        Err(PositionNftError::NotAuthorized)
    } else {
        Ok(())
    }
}

/// The minter whose authorization a minter-only call requires: the stored
/// one, or `NotInitialized` when there is none.
pub fn stored_minter(minter: Option<Address>) -> (r: Result<Address, PositionNftError>)
    ensures
        r == (match minter {
            Some(m) => Ok(m),
            None => Err(PositionNftError::NotInitialized),
        }),
{
    match minter {
        Some(m) => Ok(m),
        None => Err(PositionNftError::NotInitialized),
    }
}

/// What a successful mint writes: the new token's id and metadata, the new
/// value of the next-id counter, and the event it publishes.
#[derive(Copy, Clone, Debug, PartialEq, Eq, Structural)]
pub struct MintPlan {
    pub id: u64,
    pub metadata: PositionMetadata,
    pub next_id: u64,
    pub event: TransferEvent,
}

/// The metadata of a freshly minted position.
pub open spec fn new_metadata(
    owner: Address,
    pool: Address,
    tick_lower: i32,
    tick_upper: i32,
    liquidity: u128,
    created_at: u64,
) -> PositionMetadata {
    PositionMetadata { owner, pool, tick_lower, tick_upper, liquidity, created_at }
}

/// The outcome of a mint that read `stored_next_id` from storage.
pub open spec fn mint_plan(
    stored_next_id: Option<u64>,
    owner: Address,
    pool: Address,
    tick_lower: i32,
    tick_upper: i32,
    liquidity: u128,
    created_at: u64,
) -> Result<MintPlan, PositionNftError> {
    let id = counter_value(stored_next_id);
    if id == u64::MAX {
        Err(PositionNftError::Overflow)
    } else {
        Ok(
            MintPlan {
                id,
                metadata: new_metadata(owner, pool, tick_lower, tick_upper, liquidity, created_at),
                next_id: (id + 1) as u64,
                event: TransferEvent { from: Party::Zero, to: Party::Account(owner), token_id: id },
            },
        )
    }
}

/// Decides a mint: the new token takes the current counter value as its id,
/// unless the counter is exhausted.
pub fn plan_mint(
    stored_next_id: Option<u64>,
    owner: Address,
    pool: Address,
    tick_lower: i32,
    tick_upper: i32,
    liquidity: u128,
    created_at: u64,
) -> (r: Result<MintPlan, PositionNftError>)
    ensures
        r == mint_plan(stored_next_id, owner, pool, tick_lower, tick_upper, liquidity, created_at),
{
    let id = supply_or_zero(stored_next_id);
    if id == u64::MAX {
        return Err(PositionNftError::Overflow);
    }
    let metadata = PositionMetadata { owner, pool, tick_lower, tick_upper, liquidity, created_at };
    let event = TransferEvent { from: Party::Zero, to: Party::Account(owner), token_id: id };
    Ok(MintPlan { id, metadata, next_id: id + 1, event })
}

/// The outcome of reading a position: its metadata, or `PositionNotFound`.
pub open spec fn lookup(stored: Option<PositionMetadata>) -> Result<PositionMetadata, PositionNftError> {
    match stored {
        Some(m) => Ok(m),
        None => Err(PositionNftError::PositionNotFound),
    }
}

/// The stored metadata of a position, or `PositionNotFound`.
pub fn lookup_position(stored: Option<PositionMetadata>) -> (r: Result<PositionMetadata, PositionNftError>)
    ensures
        r == lookup(stored),
{
    match stored {
        Some(m) => Ok(m),
        None => Err(PositionNftError::PositionNotFound),
    }
}

/// The outcome of burning token `token_id` whose stored metadata is `stored`:
/// the event it publishes.
pub open spec fn burn_plan(token_id: u64, stored: Option<PositionMetadata>) -> Result<TransferEvent, PositionNftError> {
    match stored {
        Some(m) => Ok(TransferEvent { from: Party::Account(m.owner), to: Party::Zero, token_id }),
        None => Err(PositionNftError::PositionNotFound),
    }
}

/// Decides a burn: only an existing token can be burned.
pub fn plan_burn(token_id: u64, stored: Option<PositionMetadata>) -> (r: Result<TransferEvent, PositionNftError>)
    ensures
        r == burn_plan(token_id, stored),
{
    let m = lookup_position(stored)?;
    Ok(TransferEvent { from: Party::Account(m.owner), to: Party::Zero, token_id })
}

/// The outcome of transferring token `token_id`, whose stored metadata is
/// `stored`, from `from` to `to`: the metadata to write back and the event
/// to publish.
pub open spec fn transfer_plan(
    token_id: u64,
    stored: Option<PositionMetadata>,
    from: Address,
    to: Address,
) -> Result<(PositionMetadata, TransferEvent), PositionNftError> {
    match stored {
        None => Err(PositionNftError::PositionNotFound),
        Some(m) => if m.owner != from {
            Err(PositionNftError::NotAuthorized)
        } else {
            Ok(
                (
                    PositionMetadata { owner: to, ..m },
                    TransferEvent { from: Party::Account(from), to: Party::Account(to), token_id },
                ),
            )
        },
    }
}

/// Decides a transfer: the token must exist and be owned by `from`; only
/// its owner changes.
pub fn plan_transfer(
    token_id: u64,
    stored: Option<PositionMetadata>,
    from: Address,
    to: Address,
) -> (r: Result<(PositionMetadata, TransferEvent), PositionNftError>)
    ensures
        r == transfer_plan(token_id, stored, from, to),
{
    let m = lookup_position(stored)?;
    if !m.owner.same_as(&from) {
        return Err(PositionNftError::NotAuthorized);
    }
    let updated = PositionMetadata {
        owner: to,
        pool: m.pool,
        tick_lower: m.tick_lower,
        tick_upper: m.tick_upper,
        liquidity: m.liquidity,
        created_at: m.created_at,
    };
    Ok((updated, TransferEvent { from: Party::Account(from), to: Party::Account(to), token_id }))
}

} // verus!
