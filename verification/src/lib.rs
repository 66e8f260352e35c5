//! Key material, the one-shot seed slot and the deterministic fixtures of the
//! MusyBoard end-to-end encryption bridge.

pub mod codec;
mod fixtures;
mod hex;
mod keys;
pub mod rng;

pub use fixtures::{chiave, identita_di_prova, rng_di_prova, seed_bytes};
pub use hex::hex;
pub use keys::{Identity, PublicKey};
pub use rng::SeedSlot;
