//! Ledger-resident state machines for wager escrow, randomness-driven card
//! packs and a points bridge, with the balance movements they rely on.
pub mod address;
pub mod rewards;
pub mod store;
pub mod transfer;
pub mod pvp_escrow;
pub mod packs_vrf;
pub mod pokecoins_bridge;
