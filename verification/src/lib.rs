//! A verified model of a position NFT contract: each liquidity position is a
//! token with metadata, minted and burned by a single minter and transferred
//! by its owner.

pub mod address;
pub mod contract;
pub mod error;
pub mod key;
pub mod laws;
pub mod plan;
pub mod position;
