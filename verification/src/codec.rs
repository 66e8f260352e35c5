use vstd::prelude::*;

verus! {

// The first byte of every encoded incoming item names its kind. A reader on
// the host side matches on these values, so they never change.

/// A message from a contact.
pub const TAG_MESSAGE: u8 = 0;

/// A message written by this identity, opened again.
pub const TAG_OWN_MESSAGE: u8 = 1;

/// A contact's request to burn the conversation.
pub const TAG_BURNED: u8 = 2;

/// This identity's own card, opened again.
pub const TAG_OWN_IDENTITY_CARD: u8 = 3;

/// A contact's identity card.
pub const TAG_IDENTITY_CARD: u8 = 4;

} // verus!
