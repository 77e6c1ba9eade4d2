//! Transactional core of an NFT marketplace: listings, fixed-price sales,
//! auctions, price offers and the retry-safe settlement of a sale that spans
//! the NFT contract, the fungible-token contract and the treasury.
pub mod types;
pub mod book;
pub mod auction;
pub mod item;
pub mod settlement;
pub mod store;
pub mod market;
pub mod laws;
