//! On-ledger state machine for player game and achievement NFTs.
//!
//! A program keeps at most one collection per authority. Only that authority
//! may mint into its collection, and each collection mints at most one record
//! per uniqueness key. The two record kinds (games, achievements) are two
//! instantiations of the generic [`registry::Registry`].
pub mod error;
pub mod account;
pub mod text;
pub mod collection;
pub mod registry;
pub mod player_games;
pub mod player_achievements;
