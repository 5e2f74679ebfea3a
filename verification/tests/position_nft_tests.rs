use position_nft::address::{Address, AddressKind, Invocation};
use position_nft::contract::PositionNft;
use position_nft::error::{InvokeError, PositionNftError};

const NOW: u64 = 1_700_000_000;

fn account(n: u128) -> Address {
    Address::new(AddressKind::Account, n, n.wrapping_mul(31).wrapping_add(7))
}

fn setup() -> (PositionNft, Invocation, Address, Address, Address, Address) {
    let contract = PositionNft::new();
    let ctx = Invocation::signed_by_everyone(NOW);
    let minter = account(1);
    let owner = account(2);
    let pool = Address::new(AddressKind::Contract, 3, 3);
    let recipient = account(4);
    (contract, ctx, minter, owner, pool, recipient)
}

// ── Initialization ────────────────────────────────────────────────────────────

#[test]
fn test_initialize_success() {
    let (mut client, ctx, minter, _, _, _) = setup();

    let result = client.initialize(&ctx, minter);
    assert_eq!(result, Ok(()));
    assert_eq!(client.total_supply(), 0u64);
}

#[test]
fn test_initialize_twice_fails() {
    let (mut client, ctx, minter, _, _, _) = setup();

    client.initialize(&ctx, minter).unwrap();
    let result = client.initialize(&ctx, minter);
    assert_eq!(result, Err(InvokeError::Contract(PositionNftError::NotAuthorized)));
}

// ── Mint ──────────────────────────────────────────────────────────────────────

#[test]
fn test_mint_creates_position() {
    let (mut client, ctx, minter, owner, pool, _) = setup();

    client.initialize(&ctx, minter).unwrap();

    let result = client.mint(&ctx, owner, pool, -100i32, 100i32, 1000u128);
    assert_eq!(result, Ok(0u64));

    let position = client.get_position(0u64).unwrap();
    assert_eq!(position.owner, owner);
    assert_eq!(position.pool, pool);
    assert_eq!(position.tick_lower, -100i32);
    assert_eq!(position.tick_upper, 100i32);
    assert_eq!(position.liquidity, 1000u128);
    assert!(position.created_at > 0);
}

#[test]
fn test_mint_increments_total_supply() {
    let (mut client, ctx, minter, owner, pool, _) = setup();

    client.initialize(&ctx, minter).unwrap();

    assert_eq!(client.total_supply(), 0u64);

    client.mint(&ctx, owner, pool, -100i32, 100i32, 1000u128).unwrap();
    assert_eq!(client.total_supply(), 1u64);

    client.mint(&ctx, owner, pool, -200i32, 200i32, 2000u128).unwrap();
    assert_eq!(client.total_supply(), 2u64);
}

#[test]
fn test_mint_assigns_unique_ids() {
    let (mut client, ctx, minter, owner, pool, _) = setup();

    client.initialize(&ctx, minter).unwrap();

    let id1 = client.mint(&ctx, owner, pool, -100i32, 100i32, 1000u128).unwrap();
    let id2 = client.mint(&ctx, owner, pool, -200i32, 200i32, 2000u128).unwrap();

    assert_eq!(id1, 0u64);
    assert_eq!(id2, 1u64);
    assert_ne!(id1, id2);
}

#[test]
fn test_mint_not_authorized_fails() {
    let (mut client, ctx, _minter, owner, pool, _) = setup();

    let result = client.mint(&ctx, owner, pool, -100i32, 100i32, 1000u128);
    assert_eq!(result, Err(InvokeError::Contract(PositionNftError::NotInitialized)));
}

// ── Owner Of ──────────────────────────────────────────────────────────────────

#[test]
fn test_owner_of_returns_correct_owner() {
    let (mut client, ctx, minter, owner, pool, _) = setup();

    client.initialize(&ctx, minter).unwrap();
    client.mint(&ctx, owner, pool, -100i32, 100i32, 1000u128).unwrap();

    let fetched_owner = client.owner_of(0u64).unwrap();
    assert_eq!(fetched_owner, owner);
}

#[test]
fn test_owner_of_nonexistent_fails() {
    let (mut client, ctx, minter, _, _, _) = setup();

    client.initialize(&ctx, minter).unwrap();

    let result = client.owner_of(999u64);
    assert_eq!(result, Err(PositionNftError::PositionNotFound));
}

// ── Transfer ──────────────────────────────────────────────────────────────────

#[test]
fn test_transfer_changes_owner() {
    let (mut client, ctx, minter, owner, pool, recipient) = setup();

    client.initialize(&ctx, minter).unwrap();
    client.mint(&ctx, owner, pool, -100i32, 100i32, 1000u128).unwrap();

    let result = client.transfer(&ctx, 0u64, owner, recipient);
    assert_eq!(result, Ok(()));

    let new_owner = client.owner_of(0u64).unwrap();
    assert_eq!(new_owner, recipient);
}

#[test]
fn test_transfer_preserves_metadata() {
    let (mut client, ctx, minter, owner, pool, recipient) = setup();

    client.initialize(&ctx, minter).unwrap();
    client.mint(&ctx, owner, pool, -100i32, 100i32, 1000u128).unwrap();

    let original_position = client.get_position(0u64).unwrap();
    let original_created_at = original_position.created_at;

    client.transfer(&ctx, 0u64, owner, recipient).unwrap();

    let new_position = client.get_position(0u64).unwrap();
    assert_eq!(new_position.owner, recipient);
    assert_eq!(new_position.pool, pool);
    assert_eq!(new_position.tick_lower, -100i32);
    assert_eq!(new_position.tick_upper, 100i32);
    assert_eq!(new_position.liquidity, 1000u128);
    assert_eq!(new_position.created_at, original_created_at);
}

#[test]
fn test_transfer_not_owner_fails() {
    let (mut client, ctx, minter, owner, pool, recipient) = setup();

    client.initialize(&ctx, minter).unwrap();
    client.mint(&ctx, owner, pool, -100i32, 100i32, 1000u128).unwrap();

    let unauthorized = account(99);
    let result = client.transfer(&ctx, 0u64, unauthorized, recipient);
    assert_eq!(result, Err(InvokeError::Contract(PositionNftError::NotAuthorized)));
}

#[test]
fn test_transfer_nonexistent_fails() {
    let (mut client, ctx, minter, _, _, _) = setup();

    client.initialize(&ctx, minter).unwrap();

    let owner = account(50);
    let recipient = account(51);
    let result = client.transfer(&ctx, 999u64, owner, recipient);
    assert_eq!(result, Err(InvokeError::Contract(PositionNftError::PositionNotFound)));
}

// ── Burn ──────────────────────────────────────────────────────────────────────

#[test]
fn test_burn_removes_position() {
    let (mut client, ctx, minter, owner, pool, _) = setup();

    client.initialize(&ctx, minter).unwrap();
    client.mint(&ctx, owner, pool, -100i32, 100i32, 1000u128).unwrap();

    assert!(client.get_position(0u64).is_ok());

    let result = client.burn(&ctx, 0u64);
    assert_eq!(result, Ok(()));

    let result = client.get_position(0u64);
    assert_eq!(result, Err(PositionNftError::PositionNotFound));
}

#[test]
fn test_burn_not_authorized_fails() {
    let (mut client, ctx, minter, owner, pool, _) = setup();

    client.initialize(&ctx, minter).unwrap();
    client.mint(&ctx, owner, pool, -100i32, 100i32, 1000u128).unwrap();

    // Only a stranger signs: the minter's authorization is missing.
    let unauthorized = account(77);
    let stranger_ctx = Invocation::signed_by_only(vec![unauthorized], NOW);
    let result = client.burn(&stranger_ctx, 0u64);
    // This should fail because the caller is not the minter
    assert!(result.is_err());
}

#[test]
fn test_burn_nonexistent_fails() {
    let (mut client, ctx, minter, _, _, _) = setup();

    client.initialize(&ctx, minter).unwrap();

    let result = client.burn(&ctx, 999u64);
    assert_eq!(result, Err(InvokeError::Contract(PositionNftError::PositionNotFound)));
}

// ── Get Position ──────────────────────────────────────────────────────────────

#[test]
fn test_get_position_returns_complete_metadata() {
    let (mut client, ctx, minter, owner, pool, _) = setup();

    client.initialize(&ctx, minter).unwrap();
    client.mint(&ctx, owner, pool, -500i32, 500i32, 5000u128).unwrap();

    let position = client.get_position(0u64).unwrap();
    assert_eq!(position.owner, owner);
    assert_eq!(position.pool, pool);
    assert_eq!(position.tick_lower, -500i32);
    assert_eq!(position.tick_upper, 500i32);
    assert_eq!(position.liquidity, 5000u128);
}

#[test]
fn test_get_position_nonexistent_fails() {
    let (mut client, ctx, minter, _, _, _) = setup();

    client.initialize(&ctx, minter).unwrap();

    let result = client.get_position(999u64);
    assert_eq!(result, Err(PositionNftError::PositionNotFound));
}

// ── Edge Cases ────────────────────────────────────────────────────────────────

#[test]
fn test_multiple_positions_independent() {
    let (mut client, ctx, minter, owner, pool, recipient) = setup();

    client.initialize(&ctx, minter).unwrap();

    let id1 = client.mint(&ctx, owner, pool, -100i32, 100i32, 1000u128).unwrap();
    let id2 = client.mint(&ctx, recipient, pool, -200i32, 200i32, 2000u128).unwrap();

    // Transfer id1
    client.transfer(&ctx, id1, owner, recipient).unwrap();

    // Check both positions have correct owners
    assert_eq!(client.owner_of(id1).unwrap(), recipient);
    assert_eq!(client.owner_of(id2).unwrap(), recipient);

    // Burn id2
    client.burn(&ctx, id2).unwrap();

    // id1 should still exist
    assert_eq!(client.owner_of(id1).unwrap(), recipient);
    assert_eq!(client.get_position(id1).unwrap().liquidity, 1000u128);

    // id2 should not exist
    assert!(client.get_position(id2).is_err());
}

#[test]
fn test_chain_transfers() {
    let (mut client, ctx, minter, owner, pool, _) = setup();

    let addr1 = owner;
    let addr2 = account(20);
    let addr3 = account(30);

    client.initialize(&ctx, minter).unwrap();
    client.mint(&ctx, addr1, pool, -100i32, 100i32, 1000u128).unwrap();

    client.transfer(&ctx, 0u64, addr1, addr2).unwrap();
    assert_eq!(client.owner_of(0u64).unwrap(), addr2);

    client.transfer(&ctx, 0u64, addr2, addr3).unwrap();
    assert_eq!(client.owner_of(0u64).unwrap(), addr3);

    client.transfer(&ctx, 0u64, addr3, addr1).unwrap();
    assert_eq!(client.owner_of(0u64).unwrap(), addr1);
}
