use musyboard_wasm::codec::{
    TAG_BURNED, TAG_IDENTITY_CARD, TAG_MESSAGE, TAG_OWN_IDENTITY_CARD, TAG_OWN_MESSAGE,
};

#[test]
fn tag_burned_e_own_message_hanno_i_valori_dichiarati() {
    assert_eq!(TAG_MESSAGE, 0);
    assert_eq!(TAG_OWN_MESSAGE, 1);
    assert_eq!(TAG_BURNED, 2);
    assert_eq!(TAG_OWN_IDENTITY_CARD, 3);
    assert_eq!(TAG_IDENTITY_CARD, 4);
}
