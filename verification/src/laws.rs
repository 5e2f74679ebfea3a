//! Properties of the contract that span its calls.

use vstd::prelude::*;
use crate::address::{signed_by, Address, Invocation};
use crate::contract::{
    burn_outcome, empty_state, initialize_outcome, mint_outcome, owner_result, position_result,
    state_wf, stored_position, supply, transfer_outcome, NftState,
};
use crate::error::{error_code, InvokeError, PositionNftError};
use crate::plan::{burn_plan, mint_plan, new_metadata, transfer_plan, MintPlan};
use crate::position::{Party, PositionMetadata, TransferEvent};

verus! {

/// A freshly deployed contract satisfies the storage invariant, and every
/// call keeps it, whatever its outcome.
pub proof fn lemma_calls_keep_invariant(
    s: NftState,
    ctx: Invocation,
    a: Address,
    b: Address,
    token_id: u64,
    tick_lower: i32,
    tick_upper: i32,
    liquidity: u128,
)
    requires
        state_wf(s),
    ensures
        state_wf(empty_state()),
        state_wf(initialize_outcome(s, ctx, a).0),
        state_wf(mint_outcome(s, ctx, a, b, tick_lower, tick_upper, liquidity).0),
        state_wf(burn_outcome(s, ctx, token_id).0),
        state_wf(transfer_outcome(s, ctx, token_id, a, b).0),
{
    let s1 = mint_outcome(s, ctx, a, b, tick_lower, tick_upper, liquidity).0;
    assert forall|id: u64| #[trigger] s1.positions.contains_key(id) implies s1.minter is Some
        && id < supply(s1) by {
        if s1 != s && id != supply(s) {
            assert(s.positions.contains_key(id));
        }
    }
    let s2 = burn_outcome(s, ctx, token_id).0;
    assert forall|id: u64| #[trigger] s2.positions.contains_key(id) implies s2.minter is Some
        && id < supply(s2) by {
        assert(s.positions.contains_key(id));
    }
    let s3 = transfer_outcome(s, ctx, token_id, a, b).0;
    assert forall|id: u64| #[trigger] s3.positions.contains_key(id) implies s3.minter is Some
        && id < supply(s3) by {
        assert(s.positions.contains_key(id));
    }
}

/// A call that fails changes nothing: no storage write and no event.
pub proof fn lemma_failed_calls_change_nothing(
    s: NftState,
    ctx: Invocation,
    a: Address,
    b: Address,
    token_id: u64,
    tick_lower: i32,
    tick_upper: i32,
    liquidity: u128,
)
    ensures
        initialize_outcome(s, ctx, a).1 is Err ==> initialize_outcome(s, ctx, a).0 == s,
        mint_outcome(s, ctx, a, b, tick_lower, tick_upper, liquidity).1 is Err ==> mint_outcome(
            s,
            ctx,
            a,
            b,
            tick_lower,
            tick_upper,
            liquidity,
        ).0 == s,
        burn_outcome(s, ctx, token_id).1 is Err ==> burn_outcome(s, ctx, token_id).0 == s,
        transfer_outcome(s, ctx, token_id, a, b).1 is Err ==> transfer_outcome(
            s,
            ctx,
            token_id,
            a,
            b,
        ).0 == s,
{
}

/// The contract can be initialized once only: a second call is refused with
/// `NotAuthorized` (when the minter signs it), and a successful one leaves
/// the supply at zero.
pub proof fn lemma_initialize_once(s: NftState, ctx: Invocation, minter: Address, other: Address)
    requires
        initialize_outcome(s, ctx, minter).1 is Ok,
        signed_by(ctx, other),
    ensures
        supply(initialize_outcome(s, ctx, minter).0) == 0,
        initialize_outcome(s, ctx, minter).0.minter == Some(minter),
        initialize_outcome(initialize_outcome(s, ctx, minter).0, ctx, other).1 == Err::<
            (),
            InvokeError,
        >(InvokeError::Contract(PositionNftError::NotAuthorized)),
{
}

/// Only the stored minter, when it has signed, can mint or burn; mint and
/// burn before initialization fail with `NotInitialized`.
pub proof fn lemma_only_minter_mints_and_burns(
    s: NftState,
    ctx: Invocation,
    owner: Address,
    pool: Address,
    token_id: u64,
    tick_lower: i32,
    tick_upper: i32,
    liquidity: u128,
)
    ensures
        mint_outcome(s, ctx, owner, pool, tick_lower, tick_upper, liquidity).1 is Ok ==> (
        s.minter is Some && signed_by(ctx, s.minter->0)),
        burn_outcome(s, ctx, token_id).1 is Ok ==> (s.minter is Some && signed_by(
            ctx,
            s.minter->0,
        )),
        s.minter is None ==> mint_outcome(s, ctx, owner, pool, tick_lower, tick_upper, liquidity).1
            == Err::<u64, InvokeError>(InvokeError::Contract(PositionNftError::NotInitialized)),
        s.minter is None ==> burn_outcome(s, ctx, token_id).1 == Err::<(), InvokeError>(
            InvokeError::Contract(PositionNftError::NotInitialized),
        ),
{
}

/// A successful mint returns the previous supply as the new id, raises the
/// supply by one, stores exactly the given metadata with the ledger's
/// timestamp under that id (which was free), leaves every other token as it
/// was, and publishes one transfer event from the zero party to the owner.
pub proof fn lemma_mint_then_read(
    s: NftState,
    ctx: Invocation,
    owner: Address,
    pool: Address,
    tick_lower: i32,
    tick_upper: i32,
    liquidity: u128,
    other: u64,
)
    requires
        state_wf(s),
        mint_outcome(s, ctx, owner, pool, tick_lower, tick_upper, liquidity).1 is Ok,
    ensures
        ({
            let (s1, r) = mint_outcome(s, ctx, owner, pool, tick_lower, tick_upper, liquidity);
            let id = r->Ok_0;
            &&& id == supply(s)
            &&& supply(s1) == supply(s) + 1
            &&& stored_position(s, id) is None
            &&& position_result(s1, id) == Ok::<PositionMetadata, PositionNftError>(
                new_metadata(owner, pool, tick_lower, tick_upper, liquidity, ctx.timestamp),
            )
            &&& owner_result(s1, id) == Ok::<Address, PositionNftError>(owner)
            &&& other != id ==> stored_position(s1, other) == stored_position(s, other)
            &&& s1.events == s.events.push(
                TransferEvent { from: Party::Zero, to: Party::Account(owner), token_id: id },
            )
        }),
{
}

/// Two successful mints in a row hand out consecutive, hence distinct, ids.
pub proof fn lemma_mint_ids_unique(
    s: NftState,
    ctx1: Invocation,
    ctx2: Invocation,
    owner1: Address,
    pool1: Address,
    owner2: Address,
    pool2: Address,
    tick_lower1: i32,
    tick_upper1: i32,
    liquidity1: u128,
    tick_lower2: i32,
    tick_upper2: i32,
    liquidity2: u128,
)
    requires
        mint_outcome(s, ctx1, owner1, pool1, tick_lower1, tick_upper1, liquidity1).1 is Ok,
        mint_outcome(
            mint_outcome(s, ctx1, owner1, pool1, tick_lower1, tick_upper1, liquidity1).0,
            ctx2,
            owner2,
            pool2,
            tick_lower2,
            tick_upper2,
            liquidity2,
        ).1 is Ok,
    ensures
        ({
            let (s1, r1) = mint_outcome(s, ctx1, owner1, pool1, tick_lower1, tick_upper1, liquidity1);
            let r2 = mint_outcome(s1, ctx2, owner2, pool2, tick_lower2, tick_upper2, liquidity2).1;
            &&& r2->Ok_0 == r1->Ok_0 + 1
            &&& r1->Ok_0 != r2->Ok_0
        }),
{
}

/// The supply never decreases: burning and transferring leave it as it is,
/// and a successful mint raises it by one.
pub proof fn lemma_supply_monotone(
    s: NftState,
    ctx: Invocation,
    a: Address,
    b: Address,
    token_id: u64,
    tick_lower: i32,
    tick_upper: i32,
    liquidity: u128,
)
    requires
        state_wf(s),
    ensures
        supply(initialize_outcome(s, ctx, a).0) == supply(s),
        supply(mint_outcome(s, ctx, a, b, tick_lower, tick_upper, liquidity).0) >= supply(s),
        supply(burn_outcome(s, ctx, token_id).0) == supply(s),
        supply(transfer_outcome(s, ctx, token_id, a, b).0) == supply(s),
{
}

/// Only the owner, when it has signed, can transfer a token. A successful
/// transfer changes the owner to `to` and nothing else of the token, leaves
/// every other token as it was, and publishes one transfer event.
pub proof fn lemma_transfer_changes_owner_only(
    s: NftState,
    ctx: Invocation,
    token_id: u64,
    from: Address,
    to: Address,
    other: u64,
)
    requires
        transfer_outcome(s, ctx, token_id, from, to).1 is Ok,
    ensures
        ({
            let s1 = transfer_outcome(s, ctx, token_id, from, to).0;
            let before = s.positions[token_id];
            &&& signed_by(ctx, from)
            &&& owner_result(s, token_id) == Ok::<Address, PositionNftError>(from)
            &&& owner_result(s1, token_id) == Ok::<Address, PositionNftError>(to)
            &&& position_result(s1, token_id) == Ok::<PositionMetadata, PositionNftError>(
                PositionMetadata { owner: to, ..before },
            )
            &&& other != token_id ==> stored_position(s1, other) == stored_position(s, other)
            &&& s1.minter == s.minter && s1.next_id == s.next_id
            &&& s1.events == s.events.push(
                TransferEvent { from: Party::Account(from), to: Party::Account(to), token_id },
            )
        }),
{
}

/// A signed transfer of an existing token by anyone but its owner is refused
/// with `NotAuthorized`; of a missing token, with `PositionNotFound`.
pub proof fn lemma_transfer_refusals(
    s: NftState,
    ctx: Invocation,
    token_id: u64,
    from: Address,
    to: Address,
)
    requires
        signed_by(ctx, from),
    ensures
        owner_result(s, token_id) is Ok && owner_result(s, token_id)->Ok_0 != from
            ==> transfer_outcome(s, ctx, token_id, from, to).1 == Err::<(), InvokeError>(
            InvokeError::Contract(PositionNftError::NotAuthorized),
        ),
        !s.positions.contains_key(token_id) ==> transfer_outcome(s, ctx, token_id, from, to).1
            == Err::<(), InvokeError>(InvokeError::Contract(PositionNftError::PositionNotFound)),
{
}

/// Transfers chain: after `a` gives a token to `b` and `b` gives it to `c`,
/// `c` owns it.
pub proof fn lemma_transfers_chain(
    s: NftState,
    ctx1: Invocation,
    ctx2: Invocation,
    token_id: u64,
    a: Address,
    b: Address,
    c: Address,
)
    requires
        owner_result(s, token_id) == Ok::<Address, PositionNftError>(a),
        signed_by(ctx1, a),
        signed_by(ctx2, b),
    ensures
        ({
            let (s1, r1) = transfer_outcome(s, ctx1, token_id, a, b);
            let (s2, r2) = transfer_outcome(s1, ctx2, token_id, b, c);
            &&& r1 is Ok && r2 is Ok
            &&& owner_result(s2, token_id) == Ok::<Address, PositionNftError>(c)
        }),
{
}

/// A successful burn removes the token (later reads fail with
/// `PositionNotFound`), leaves every other token as it was, and publishes one
/// transfer event from the owner to the zero party.
pub proof fn lemma_burn_removes(s: NftState, ctx: Invocation, token_id: u64, other: u64)
    requires
        burn_outcome(s, ctx, token_id).1 is Ok,
    ensures
        ({
            let s1 = burn_outcome(s, ctx, token_id).0;
            &&& s.positions.contains_key(token_id)
            &&& position_result(s1, token_id) == Err::<PositionMetadata, PositionNftError>(
                PositionNftError::PositionNotFound,
            )
            &&& owner_result(s1, token_id) == Err::<Address, PositionNftError>(
                PositionNftError::PositionNotFound,
            )
            &&& other != token_id ==> stored_position(s1, other) == stored_position(s, other)
            &&& s1.events == s.events.push(
                TransferEvent {
                    from: Party::Account(s.positions[token_id].owner),
                    to: Party::Zero,
                    token_id,
                },
            )
        }),
{
    assert(s.positions.remove(token_id).contains_key(token_id) == false);
}

/// Each error has its own contract error code, from 1 to 4.
pub proof fn lemma_error_codes_distinct(e1: PositionNftError, e2: PositionNftError)
    ensures
        1 <= error_code(e1) <= 4,
        error_code(e1) == error_code(e2) ==> e1 == e2,
{
}

} // verus!

verus! {

/// Initialization succeeds exactly when no minter is stored yet and the
/// proposed minter (of any kind: account or contract) has signed. A
/// successful initialization stores that minter, sets the supply to zero,
/// and changes no position and publishes no event.
pub proof fn lemma_initialize_contract(s: NftState, ctx: Invocation, m: Address, t: u64)
    ensures
        (initialize_outcome(s, ctx, m).1 is Ok) <==> (s.minter is None && signed_by(ctx, m)),
        !signed_by(ctx, m) ==> initialize_outcome(s, ctx, m).1 == Err::<(), InvokeError>(
            InvokeError::AuthRequired(m),
        ),
        signed_by(ctx, m) && s.minter is Some ==> initialize_outcome(s, ctx, m).1 == Err::<
            (),
            InvokeError,
        >(InvokeError::Contract(PositionNftError::NotAuthorized)),
        initialize_outcome(s, ctx, m).1 is Ok ==> ({
            let s1 = initialize_outcome(s, ctx, m).0;
            &&& s1.minter == Some(m)
            &&& supply(s1) == 0
            &&& position_result(s1, t) == position_result(s, t)
            &&& s1.events == s.events
        }),
{
}

/// Minting succeeds exactly when a minter is stored, it has signed, and the
/// supply is below `u64::MAX`, whoever the owner and pool are and whatever
/// the ticks and liquidity. It returns the previous supply as the new id,
/// after which reading that id gives back every argument field by field
/// and the ledger's timestamp; every other id reads as before.
pub proof fn lemma_mint_contract(
    s: NftState,
    ctx: Invocation,
    owner: Address,
    pool: Address,
    tick_lower: i32,
    tick_upper: i32,
    liquidity: u128,
    t: u64,
)
    ensures
        (mint_outcome(s, ctx, owner, pool, tick_lower, tick_upper, liquidity).1 is Ok) <==> (
        s.minter is Some && signed_by(ctx, s.minter->0) && supply(s) < u64::MAX),
        s.minter is None ==> mint_outcome(s, ctx, owner, pool, tick_lower, tick_upper, liquidity).1
            == Err::<u64, InvokeError>(InvokeError::Contract(PositionNftError::NotInitialized)),
        s.minter is Some && !signed_by(ctx, s.minter->0) ==> mint_outcome(
            s,
            ctx,
            owner,
            pool,
            tick_lower,
            tick_upper,
            liquidity,
        ).1 == Err::<u64, InvokeError>(InvokeError::AuthRequired(s.minter->0)),
        s.minter is Some && signed_by(ctx, s.minter->0) && supply(s) == u64::MAX ==> mint_outcome(
            s,
            ctx,
            owner,
            pool,
            tick_lower,
            tick_upper,
            liquidity,
        ).1 == Err::<u64, InvokeError>(InvokeError::Contract(PositionNftError::Overflow)),
        mint_outcome(s, ctx, owner, pool, tick_lower, tick_upper, liquidity).1 is Ok ==> ({
            let (s1, r) = mint_outcome(s, ctx, owner, pool, tick_lower, tick_upper, liquidity);
            let id = r->Ok_0;
            let read = position_result(s1, id)->Ok_0;
            &&& id == supply(s)
            &&& supply(s1) == supply(s) + 1
            &&& position_result(s1, id) is Ok
            &&& read.owner == owner
            &&& read.pool == pool
            &&& read.tick_lower == tick_lower
            &&& read.tick_upper == tick_upper
            &&& read.liquidity == liquidity
            &&& read.created_at == ctx.timestamp
            &&& owner_result(s1, id) == Ok::<Address, PositionNftError>(owner)
            &&& t != id ==> position_result(s1, t) == position_result(s, t)
            &&& s1.minter == s.minter
            &&& s1.events == s.events.push(
                TransferEvent { from: Party::Zero, to: Party::Account(owner), token_id: id },
            )
        }),
{
}

/// Burning succeeds exactly when a minter is stored, it has signed, and the
/// token can be read, whoever owns it. Afterwards the token reads as
/// `PositionNotFound`, every other id reads as before, the supply is
/// unchanged, and one event from the token's owner to the zero party is
/// published.
pub proof fn lemma_burn_contract(s: NftState, ctx: Invocation, token_id: u64, t: u64)
    ensures
        (burn_outcome(s, ctx, token_id).1 is Ok) <==> (s.minter is Some && signed_by(
            ctx,
            s.minter->0,
        ) && position_result(s, token_id) is Ok),
        s.minter is Some && signed_by(ctx, s.minter->0) && position_result(s, token_id) is Err
            ==> burn_outcome(s, ctx, token_id).1 == Err::<(), InvokeError>(
            InvokeError::Contract(PositionNftError::PositionNotFound),
        ),
        burn_outcome(s, ctx, token_id).1 is Ok ==> ({
            let s1 = burn_outcome(s, ctx, token_id).0;
            &&& position_result(s1, token_id) == Err::<PositionMetadata, PositionNftError>(
                PositionNftError::PositionNotFound,
            )
            &&& t != token_id ==> position_result(s1, t) == position_result(s, t)
            &&& supply(s1) == supply(s)
            &&& s1.minter == s.minter
            &&& s1.events == s.events.push(
                TransferEvent {
                    from: Party::Account(owner_result(s, token_id)->Ok_0),
                    to: Party::Zero,
                    token_id,
                },
            )
        }),
{
}

/// Transferring succeeds exactly when `from` has signed and the token reads
/// as owned by `from`. Afterwards the token reads as before with `to` as its
/// owner and nothing else changed, every other id reads as before, and one
/// event from `from` to `to` is published.
pub proof fn lemma_transfer_contract(
    s: NftState,
    ctx: Invocation,
    token_id: u64,
    from: Address,
    to: Address,
    t: u64,
)
    ensures
        (transfer_outcome(s, ctx, token_id, from, to).1 is Ok) <==> (signed_by(ctx, from)
            && owner_result(s, token_id) == Ok::<Address, PositionNftError>(from)),
        transfer_outcome(s, ctx, token_id, from, to).1 is Ok ==> ({
            let s1 = transfer_outcome(s, ctx, token_id, from, to).0;
            let before = position_result(s, token_id)->Ok_0;
            &&& position_result(s1, token_id) == Ok::<PositionMetadata, PositionNftError>(
                PositionMetadata { owner: to, ..before },
            )
            &&& t != token_id ==> position_result(s1, t) == position_result(s, t)
            &&& supply(s1) == supply(s)
            &&& s1.minter == s.minter
            &&& s1.events == s.events.push(
                TransferEvent { from: Party::Account(from), to: Party::Account(to), token_id },
            )
        }),
{
}

/// The owner a token reads as is the owner in the metadata it reads as.
pub proof fn lemma_owner_matches_position(s: NftState, t: u64)
    ensures
        owner_result(s, t) is Ok <==> position_result(s, t) is Ok,
        owner_result(s, t) is Ok ==> owner_result(s, t)->Ok_0 == position_result(s, t)->Ok_0.owner,
        owner_result(s, t) is Err ==> owner_result(s, t) == Err::<Address, PositionNftError>(
            PositionNftError::PositionNotFound,
        ),
{
}

/// The decision of a mint, given the stored counter: it fails only when the
/// counter is exhausted, and otherwise hands out the counter value as the
/// id, every argument unchanged as the metadata, the next counter value, and
/// an event to the owner.
pub proof fn lemma_mint_plan_fields(
    stored_next_id: Option<u64>,
    owner: Address,
    pool: Address,
    tick_lower: i32,
    tick_upper: i32,
    liquidity: u128,
    created_at: u64,
)
    ensures
        ({
            let n: u64 = match stored_next_id {
                Some(v) => v,
                None => 0,
            };
            let r = mint_plan(stored_next_id, owner, pool, tick_lower, tick_upper, liquidity, created_at);
            &&& (r is Ok <==> n < u64::MAX)
            &&& r is Err ==> r == Err::<MintPlan, PositionNftError>(PositionNftError::Overflow)
            &&& r is Ok ==> {
                let p = r->Ok_0;
                &&& p.id == n
                &&& p.next_id == n + 1
                &&& p.metadata.owner == owner
                &&& p.metadata.pool == pool
                &&& p.metadata.tick_lower == tick_lower
                &&& p.metadata.tick_upper == tick_upper
                &&& p.metadata.liquidity == liquidity
                &&& p.metadata.created_at == created_at
                &&& p.event == TransferEvent { from: Party::Zero, to: Party::Account(owner), token_id: n }
            }
        }),
{
}

/// The decision of a burn and of a transfer, given the stored record: a burn
/// fails only for a missing token; a transfer fails only for a missing token
/// or a sender that is not the owner, and otherwise changes the owner only.
pub proof fn lemma_burn_and_transfer_plans(
    token_id: u64,
    stored: Option<PositionMetadata>,
    from: Address,
    to: Address,
)
    ensures
        (burn_plan(token_id, stored) is Ok) <==> stored is Some,
        stored is Some ==> burn_plan(token_id, stored) == Ok::<TransferEvent, PositionNftError>(
            TransferEvent { from: Party::Account(stored->0.owner), to: Party::Zero, token_id },
        ),
        stored is None ==> burn_plan(token_id, stored) == Err::<TransferEvent, PositionNftError>(
            PositionNftError::PositionNotFound,
        ),
        (transfer_plan(token_id, stored, from, to) is Ok) <==> (stored is Some && stored->0.owner
            == from),
        stored is Some && stored->0.owner != from ==> transfer_plan(token_id, stored, from, to)
            == Err::<(PositionMetadata, TransferEvent), PositionNftError>(
            PositionNftError::NotAuthorized,
        ),
        stored is Some && stored->0.owner == from ==> transfer_plan(token_id, stored, from, to) == Ok::<
            (PositionMetadata, TransferEvent),
            PositionNftError,
        >(
            (
                PositionMetadata { owner: to, ..stored->0 },
                TransferEvent { from: Party::Account(from), to: Party::Account(to), token_id },
            ),
        ),
{
}

} // verus!
