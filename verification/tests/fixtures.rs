use musyboard_wasm::{chiave, hex, identita_di_prova, rng_di_prova, seed_bytes, PublicKey};
use rand_core::RngCore;

#[test]
fn seme_ripetuto_trentadue_volte() {
    assert_eq!(seed_bytes(9), [9u8; 32]);
    assert_eq!(seed_bytes(0), [0u8; 32]);
}

#[test]
fn chiave_ripete_il_seme() {
    assert_eq!(chiave(1).as_bytes(), &[1u8; 32]);
    assert_eq!(chiave(50), PublicKey::from_bytes([50u8; 32]));
    assert_ne!(chiave(1), chiave(2));
}

#[test]
fn identita_di_prova_ha_il_seme_come_segreto() {
    assert_eq!(identita_di_prova(1).secret_bytes(), [1u8; 32]);
    assert_eq!(identita_di_prova(2).secret_bytes(), [2u8; 32]);
}

#[test]
fn hex_scrive_due_cifre_minuscole_per_byte() {
    assert_eq!(hex(&[0x00, 0x0f, 0xab, 0xff]), "000fabff");
    assert_eq!(hex(&[0x10, 0x9a]), "109a");
    assert_eq!(hex(&[]), "");
    assert_eq!(hex(&[7u8; 32]).len(), 64);
}

#[test]
fn rng_di_prova_segue_il_flusso_chacha20() {
    // ChaCha20 with an all-zero key, counter and nonce (draft-nir-cfrg-chacha20-poly1305, vector 1).
    let mut rng = rng_di_prova(0);
    let expected: [u32; 16] = [
        0xade0b876, 0x903df1a0, 0xe56a5d40, 0x28bd8653, 0xb819d2bd, 0x1aed8da0, 0xccef36a8,
        0xc70d778b, 0x7c5941da, 0x8d485751, 0x3fe02477, 0x374ad8b8, 0xf4b8436a, 0x1ca11815,
        0x69b687c3, 0x8665eeb2,
    ];
    for word in expected {
        assert_eq!(rng.next_u32(), word);
    }
}

#[test]
fn rng_di_prova_e_deterministico_e_dipende_dal_seme() {
    assert_eq!(rng_di_prova(10).get_seed(), [10u8; 32]);
    let (mut a, mut b, mut c) = (rng_di_prova(30), rng_di_prova(30), rng_di_prova(31));
    let (x, y, z) = (a.next_u64(), b.next_u64(), c.next_u64());
    assert_eq!(x, y);
    assert_ne!(x, z);
}
