//! A custody ledger for uniquely identified collectibles.
//!
//! The ledger keeps, for every token, its record with the owner of record
//! and the accounts approved to move it; for every owner the set of its
//! tokens; and for every category and rarity the pool of tokens that await
//! distribution. Every operation changes all of them together or none of
//! them. `model` says what the ledger is and what each operation does to it,
//! `laws` what holds of it at all times, and `contract` is the store that a
//! program works with.

pub mod accounting;
pub mod contract;
pub mod field_player;
pub mod laws;
pub mod model;
pub mod owner_index;
pub mod pack;
pub mod pool_index;
pub mod royalty;
pub mod seq_facts;
pub mod string_map;
pub mod token;
pub mod token_ledger;
pub mod token_set;
pub mod types;
