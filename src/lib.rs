//! Tiered block progression for a tower-defense game backend: a stat catalog
//! per block category, the registry of owned blocks, player wallets, and the
//! upgrade transaction that charges a wallet and advances a block in one step.

pub mod catalog;
pub mod category;
pub mod error;
pub mod registry;
pub mod wallet;
pub mod engine;
pub mod laws;
pub mod inventory;
pub mod api;
