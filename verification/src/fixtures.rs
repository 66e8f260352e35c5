use crate::keys::{Identity, PublicKey};
use crate::rng::{chacha20_from_seed, chacha20_keyed};
use rand_chacha::ChaCha20Rng;
use vstd::prelude::*;

verus! {

/// 32 copies of one byte.
pub open spec fn repeated(seme: u8) -> Seq<u8> {
    Seq::new(32, |i: int| seme)
}

/// The fixture bytes are 32 copies of the seed byte, every bit of it kept:
/// two seed bytes give the same fixture bytes only when they are equal, so
/// `chiave`, `identita_di_prova` and `rng_di_prova` give 256 distinct keys,
/// identities and generators.
pub proof fn lemma_repeated(a: u8, b: u8)
    ensures
        repeated(a).len() == 32,
        forall|i: int| 0 <= i < 32 ==> #[trigger] repeated(a)[i] == a,
        repeated(a) == repeated(b) <==> a == b,
{
    if repeated(a) == repeated(b) {
        assert(repeated(a)[0] == repeated(b)[0]);
    }
}

/// The 32-byte string made of `seme` repeated, the seed of every fixture.
pub fn seed_bytes(seme: u8) -> (seed: [u8; 32])
    ensures
        seed@ == repeated(seme),
        seed@.len() == 32,
        forall|i: int| 0 <= i < 32 ==> #[trigger] seed@[i] == seme,
{
    let seed = [seme; 32];
    assert(seed@ =~= repeated(seme));
    seed
}

/// A deterministic generator for tests: ChaCha20 keyed by `seme` repeated.
pub fn rng_di_prova(seme: u8) -> (rng: ChaCha20Rng)
    ensures
        rng == chacha20_keyed(repeated(seme)),
{
    chacha20_from_seed(seed_bytes(seme))
}

/// A deterministic identity for tests, whose secret is `seme` repeated.
pub fn identita_di_prova(seme: u8) -> (id: Identity)
    ensures
        id@ == repeated(seme),
        id@.len() == 32,
        forall|i: int| 0 <= i < 32 ==> #[trigger] id@[i] == seme,
{
    Identity::from_secret_bytes(seed_bytes(seme))
}

/// A deterministic public key for tests: `seme` repeated.
pub fn chiave(seme: u8) -> (key: PublicKey)
    ensures
        key@ == repeated(seme),
        key@.len() == 32,
        forall|i: int| 0 <= i < 32 ==> #[trigger] key@[i] == seme,
{
    PublicKey::from_bytes(seed_bytes(seme))
}

} // verus!
