//! A ledger for a collection of non-fungible tokens: minting, ownership, and
//! transfers whose sale price is split between creator royalties, secondary
//! royalty recipients, the collection's fee collector and the seller.
pub mod auth;
pub mod bps;
pub mod collection;
pub mod explorer;
pub mod royalty;
pub mod types;
