use musyboard_wasm::{rng_di_prova, SeedSlot};
use rand_core::RngCore;

#[test]
fn seme_si_consuma_e_non_si_riusa() {
    let mut slot = SeedSlot::new();
    slot.seed([7u8; 32]);
    assert!(slot.take().is_some());
    // Without a new seed the second `take` hands out nothing: a seed is never
    // reused between two operations.
    assert!(slot.take().is_none());
}

#[test]
fn slot_nuovo_e_vuoto() {
    let mut slot = SeedSlot::new();
    assert!(slot.take().is_none());
}

#[test]
fn il_generatore_e_chiavato_dal_seme() {
    let mut slot = SeedSlot::new();
    slot.seed([7u8; 32]);
    let mut rng = slot.take().expect("a seed is waiting");
    assert!(slot.take().is_none());
    assert_eq!(rng.get_seed(), [7u8; 32]);
    assert_eq!(rng.next_u64(), rng_di_prova(7).next_u64());
}

#[test]
fn un_seme_nuovo_sostituisce_quello_non_usato() {
    let mut slot = SeedSlot::new();
    slot.seed([1u8; 32]);
    slot.seed([2u8; 32]);
    let rng = slot.take().expect("the second seed is waiting");
    assert_eq!(rng, rng_di_prova(2));
    assert!(slot.take().is_none());
    slot.seed([3u8; 32]);
    assert_eq!(slot.take().expect("reseeded"), rng_di_prova(3));
}
