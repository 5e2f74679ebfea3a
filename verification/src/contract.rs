//! The contract together with its storage: the stored minter, the next-id
//! counter, the positions by token id, and the events it has published.

use vstd::prelude::*;
use std::collections::HashMap;
use crate::address::{signed_by, Address, Invocation};
use crate::error::{InvokeError, PositionNftError};
use crate::plan::{
    burn_plan, counter_value, lookup, lookup_position, mint_plan, plan_burn, plan_initialize,
    plan_mint, plan_transfer, stored_minter, supply_or_zero, transfer_plan,
};
use crate::position::{PositionMetadata, TransferEvent};

verus! {

broadcast use vstd::std_specs::hash::group_hash_axioms;

/// The contract's storage and published events, as mathematical values.
pub struct NftState {
    pub minter: Option<Address>,
    pub next_id: Option<u64>,
    pub positions: Map<u64, PositionMetadata>,
    pub events: Seq<TransferEvent>,
}

/// The storage of a freshly deployed contract: nothing stored, nothing
/// published.
pub open spec fn empty_state() -> NftState {
    NftState {
        minter: None,
        next_id: None,
        positions: Map::empty(),
        events: Seq::empty(),
    }
}

/// The number of positions ever minted, which is the id the next mint takes.
pub open spec fn supply(s: NftState) -> u64 {
    counter_value(s.next_id)
}

/// The stored metadata of token `id`, if any.
pub open spec fn stored_position(s: NftState, id: u64) -> Option<PositionMetadata> {
    if s.positions.contains_key(id) {
        Some(s.positions[id])
    } else {
        None
    }
}

/// What every reachable state satisfies: the counter is stored exactly when
/// a minter is, and positions exist only once a minter is stored, and only
/// under ids below the supply.
pub open spec fn state_wf(s: NftState) -> bool {
    &&& (s.minter is Some <==> s.next_id is Some)
    &&& forall|id: u64| #[trigger]
        s.positions.contains_key(id) ==> s.minter is Some && id < supply(s)
}

/// `initialize`: requires `minter`'s authorization, and succeeds only once.
pub open spec fn initialize_outcome(s: NftState, ctx: Invocation, minter: Address) -> (
    NftState,
    Result<(), InvokeError>,
) {
    if !signed_by(ctx, minter) {
        (s, Err(InvokeError::AuthRequired(minter)))
    } else if s.minter is Some {
        (s, Err(InvokeError::Contract(PositionNftError::NotAuthorized)))
    } else {
        (NftState { minter: Some(minter), next_id: Some(0), ..s }, Ok(()))
    }
}

/// `mint`: requires a stored minter and its authorization; the new token
/// takes id `supply(s)` and the ledger's timestamp as its creation time.
pub open spec fn mint_outcome(
    s: NftState,
    ctx: Invocation,
    owner: Address,
    pool: Address,
    tick_lower: i32,
    tick_upper: i32,
    liquidity: u128,
) -> (NftState, Result<u64, InvokeError>) {
    match s.minter {
        None => (s, Err(InvokeError::Contract(PositionNftError::NotInitialized))),
        Some(m) => if !signed_by(ctx, m) {
            (s, Err(InvokeError::AuthRequired(m)))
        } else {
            match mint_plan(s.next_id, owner, pool, tick_lower, tick_upper, liquidity, ctx.timestamp) {
                Err(e) => (s, Err(InvokeError::Contract(e))),
                Ok(p) => (
                    NftState {
                        minter: s.minter,
                        next_id: Some(p.next_id),
                        positions: s.positions.insert(p.id, p.metadata),
                        events: s.events.push(p.event),
                    },
                    Ok(p.id),
                ),
            }
        },
    }
}

/// `burn`: requires a stored minter and its authorization, and an existing
/// token, which it removes.
pub open spec fn burn_outcome(s: NftState, ctx: Invocation, token_id: u64) -> (
    NftState,
    Result<(), InvokeError>,
) {
    match s.minter {
        None => (s, Err(InvokeError::Contract(PositionNftError::NotInitialized))),
        Some(m) => if !signed_by(ctx, m) {
            (s, Err(InvokeError::AuthRequired(m)))
        } else {
            match burn_plan(token_id, stored_position(s, token_id)) {
                Err(e) => (s, Err(InvokeError::Contract(e))),
                Ok(ev) => (
                    NftState {
                        positions: s.positions.remove(token_id),
                        events: s.events.push(ev),
                        ..s
                    },
                    Ok(()),
                ),
            }
        },
    }
}

/// `transfer`: requires `from`'s authorization, an existing token, and that
/// `from` owns it; only the owner changes.
pub open spec fn transfer_outcome(
    s: NftState,
    ctx: Invocation,
    token_id: u64,
    from: Address,
    to: Address,
) -> (NftState, Result<(), InvokeError>) {
    if !signed_by(ctx, from) {
        (s, Err(InvokeError::AuthRequired(from)))
    } else {
        match transfer_plan(token_id, stored_position(s, token_id), from, to) {
            Err(e) => (s, Err(InvokeError::Contract(e))),
            Ok((m, ev)) => (
                NftState {
                    positions: s.positions.insert(token_id, m),
                    events: s.events.push(ev),
                    ..s
                },
                Ok(()),
            ),
        }
    }
}

/// `get_position`: the stored metadata, or `PositionNotFound`.
pub open spec fn position_result(s: NftState, token_id: u64) -> Result<PositionMetadata, PositionNftError> {
    lookup(stored_position(s, token_id))
}

/// `owner_of`: the stored owner, or `PositionNotFound`.
pub open spec fn owner_result(s: NftState, token_id: u64) -> Result<Address, PositionNftError> {
    match position_result(s, token_id) {
        Ok(m) => Ok(m.owner),
        Err(e) => Err(e),
    }
}

/// The position NFT contract with its storage.
pub struct PositionNft {
    minter: Option<Address>,
    next_id: Option<u64>,
    positions: HashMap<u64, PositionMetadata>,
    events: Vec<TransferEvent>,
}

impl View for PositionNft {
    type V = NftState;

    closed spec fn view(&self) -> NftState {
        NftState {
            minter: self.minter,
            next_id: self.next_id,
            positions: self.positions@,
            events: self.events@,
        }
    }
}

impl PositionNft {
    /// A freshly deployed contract.
    pub fn new() -> (c: PositionNft)
        ensures
            c@ == empty_state(),
    {
        PositionNft { minter: None, next_id: None, positions: HashMap::new(), events: Vec::new() }
    }

    /// The contract's name.
    pub fn name() -> (n: &'static str)
        ensures
            n@ == "position_nft"@,
    {
        "position_nft"
    }

    fn stored(&self, token_id: u64) -> (r: Option<PositionMetadata>)
        ensures
            r == stored_position(self@, token_id),
    {
        match self.positions.get(&token_id) {
            Some(m) => Some(*m),
            None => None,
        }
    }

    /// Verifies that the stored minter exists and has signed `ctx`.
    fn require_minter(&self, ctx: &Invocation) -> (r: Result<(), InvokeError>)
        ensures
            r == (match self@.minter {
                None => Err(InvokeError::Contract(PositionNftError::NotInitialized)),
                Some(m) => if signed_by(*ctx, m) {
                    Ok(())
                } else {
                    Err(InvokeError::AuthRequired(m))
                },
            }),
    {
        let m = match stored_minter(self.minter) {
            Ok(m) => m,
            Err(e) => {
                return Err(InvokeError::Contract(e));
            },
        };
        if !ctx.authorizes(&m) {
            return Err(InvokeError::AuthRequired(m));
        }
        Ok(())
    }

    /// Initializes the contract with a minter. Callable once.
    pub fn initialize(&mut self, ctx: &Invocation, minter: Address) -> (r: Result<(), InvokeError>)
        ensures
            (final(self)@, r) == initialize_outcome(old(self)@, *ctx, minter),
    {
        if !ctx.authorizes(&minter) {
            return Err(InvokeError::AuthRequired(minter));
        }
        match plan_initialize(self.minter.is_some()) {
            Err(e) => Err(InvokeError::Contract(e)),
            Ok(()) => {
                self.minter = Some(minter);
                self.next_id = Some(0);
                Ok(())
            },
        }
    }

    /// Mints a new position token for `owner`. Only the minter may mint.
    pub fn mint(
        &mut self,
        ctx: &Invocation,
        owner: Address,
        pool: Address,
        tick_lower: i32,
        tick_upper: i32,
        liquidity: u128,
    ) -> (r: Result<u64, InvokeError>)
        ensures
            (final(self)@, r) == mint_outcome(
                old(self)@,
                *ctx,
                owner,
                pool,
                tick_lower,
                tick_upper,
                liquidity,
            ),
    {
        self.require_minter(ctx)?;
        match plan_mint(self.next_id, owner, pool, tick_lower, tick_upper, liquidity, ctx.timestamp) {
            Err(e) => Err(InvokeError::Contract(e)),
            Ok(p) => {
                self.positions.insert(p.id, p.metadata);
                self.next_id = Some(p.next_id);
                self.events.push(p.event);
                Ok(p.id)
            },
        }
    }

    /// Burns token `token_id`. Only the minter may burn.
    pub fn burn(&mut self, ctx: &Invocation, token_id: u64) -> (r: Result<(), InvokeError>)
        ensures
            (final(self)@, r) == burn_outcome(old(self)@, *ctx, token_id),
    {
        self.require_minter(ctx)?;
        let stored = self.stored(token_id);
        match plan_burn(token_id, stored) {
            Err(e) => Err(InvokeError::Contract(e)),
            Ok(ev) => {
                self.positions.remove(&token_id);
                self.events.push(ev);
                Ok(())
            },
        }
    }

    /// Transfers token `token_id` from its owner `from` to `to`.
    pub fn transfer(&mut self, ctx: &Invocation, token_id: u64, from: Address, to: Address) -> (r:
        Result<(), InvokeError>)
        ensures
            (final(self)@, r) == transfer_outcome(old(self)@, *ctx, token_id, from, to),
    {
        if !ctx.authorizes(&from) {
            return Err(InvokeError::AuthRequired(from));
        }
        let stored = self.stored(token_id);
        match plan_transfer(token_id, stored, from, to) {
            Err(e) => Err(InvokeError::Contract(e)),
            Ok((m, ev)) => {
                self.positions.insert(token_id, m);
                self.events.push(ev);
                Ok(())
            },
        }
    }

    /// The owner of token `token_id`.
    pub fn owner_of(&self, token_id: u64) -> (r: Result<Address, PositionNftError>)
        ensures
            r == owner_result(self@, token_id),
    {
        let m = lookup_position(self.stored(token_id))?;
        Ok(m.owner)
    }

    /// The complete metadata of token `token_id`.
    pub fn get_position(&self, token_id: u64) -> (r: Result<PositionMetadata, PositionNftError>)
        ensures
            r == position_result(self@, token_id),
    {
        lookup_position(self.stored(token_id))
    }

    /// The number of positions ever minted (the id the next mint takes).
    pub fn total_supply(&self) -> (n: u64)
        ensures
            n == supply(self@),
    {
        supply_or_zero(self.next_id)
    }

    /// The transfer events published so far, oldest first.
    pub fn events(&self) -> (e: &Vec<TransferEvent>)
        ensures
            e@ == self@.events,
    {
        &self.events
    }
}

} // verus!
