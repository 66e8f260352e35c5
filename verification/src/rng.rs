use rand_chacha::ChaCha20Rng;
use rand_core::SeedableRng;
use vstd::prelude::*;

verus! {

#[verifier::external_type_specification]
#[verifier::external_body]
pub struct ExChaCha20Rng(rand_chacha::ChaCha20Rng);

/// The generator that rand_chacha builds from a 32-byte seed: ChaCha20 keyed
/// by the seed, at word position 0 of stream 0. It depends on the seed alone.
pub uninterp spec fn chacha20_keyed(seed: Seq<u8>) -> ChaCha20Rng;

/// Calls `<rand_chacha::ChaCha20Rng as rand_core::SeedableRng>::from_seed`,
/// whose result is determined by the seed alone: rand_chacha's source keys the
/// ChaCha20 state with `seed`, sets the stream to 0 and starts at word 0.
/// What stream that generator then yields is not stated here; the tests check
/// it against the published ChaCha20 vectors.
#[verifier::external_body]
pub(crate) fn chacha20_from_seed(seed: [u8; 32]) -> (rng: ChaCha20Rng)
    ensures
        rng == chacha20_keyed(seed@),
{
    ChaCha20Rng::from_seed(seed)
}

/// The slot through which the host hands over the 32 random bytes that seed
/// the generator of one operation. A seed is consumed by the `take` that
/// follows it and is never handed out twice.
pub struct SeedSlot {
    pending: Option<[u8; 32]>,
}

impl View for SeedSlot {
    type V = Option<Seq<u8>>;

    /// The seed waiting to be taken, if any.
    closed spec fn view(&self) -> Option<Seq<u8>> {
        match self.pending {
            Some(s) => Some(s@),
            None => None,
        }
    }
}

/// The slot after `seed(s)`: whatever was waiting is replaced by `s`.
pub open spec fn slot_after_seed(slot: Option<Seq<u8>>, seed: Seq<u8>) -> Option<Seq<u8>> {
    Some(seed)
}

/// The slot after `take`: empty, whatever it held.
pub open spec fn slot_after_take(slot: Option<Seq<u8>>) -> Option<Seq<u8>> {
    None
}

/// Whether `take` on this slot hands out a generator.
pub open spec fn take_yields(slot: Option<Seq<u8>>) -> bool {
    slot is Some
}

impl SeedSlot {
    /// An empty slot.
    pub fn new() -> (slot: SeedSlot)
        ensures
            slot@ is None,
    {
        SeedSlot { pending: None }
    }

    /// Stores a fresh seed, replacing one that was not taken.
    pub fn seed(&mut self, seed: [u8; 32])
        ensures
            final(self)@ == slot_after_seed(old(self)@, seed@),
            final(self)@ == Some(seed@),
    {
        self.pending = Some(seed);
    }

    /// Consumes the waiting seed: a ChaCha20 generator keyed by it, or `None`
    /// when no seed was stored since the last `take`.
    pub fn take(&mut self) -> (rng: Option<ChaCha20Rng>)
        ensures
            rng is Some <==> take_yields(old(self)@),
            old(self)@ matches Some(seed) ==> rng == Some(chacha20_keyed(seed)),
            final(self)@ == slot_after_take(old(self)@),
            final(self)@ is None,
    {
        match self.pending.take() {
            Some(seed) => Some(chacha20_from_seed(seed)),
            None => None,
        }
    }
}

/// A seed is used once: after `seed(s)` the next `take` yields a generator,
/// and a second `take` with no `seed` in between yields none.
pub proof fn lemma_seed_taken_once(slot: Option<Seq<u8>>, seed: Seq<u8>)
    ensures
        take_yields(slot_after_seed(slot, seed)),
        !take_yields(slot_after_take(slot_after_seed(slot, seed))),
{
}

/// Storing a seed keeps all 32 bytes as given, whatever the slot held: the
/// next `take` is keyed by exactly the bytes the host passed in, so two
/// different seeds never lead to the same waiting seed.
pub proof fn lemma_seed_kept_whole(slot: Option<Seq<u8>>, seed: Seq<u8>, other: Seq<u8>)
    ensures
        slot_after_seed(slot, seed) == Some(seed),
        slot_after_seed(slot, seed) == slot_after_seed(slot, other) <==> seed == other,
        forall|i: int|
            0 <= i < seed.len() ==> #[trigger] slot_after_seed(slot, seed)->0[i] == seed[i],
{
}

/// Whatever the slot held, a `take` leaves nothing for the next `take`.
pub proof fn lemma_take_empties(slot: Option<Seq<u8>>)
    ensures
        !take_yields(slot_after_take(slot)),
{
}

} // verus!
