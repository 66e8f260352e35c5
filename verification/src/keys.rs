use vstd::prelude::*;

verus! {

/// An X25519 public key: exactly 32 bytes.
#[derive(Clone, Copy, Debug, PartialEq, Eq, Hash)]
pub struct PublicKey {
    bytes: [u8; 32],
}

impl View for PublicKey {
    type V = Seq<u8>;

    closed spec fn view(&self) -> Seq<u8> {
        self.bytes@
    }
}

impl PublicKey {
    /// Wraps 32 raw bytes as a public key.
    pub fn from_bytes(bytes: [u8; 32]) -> (key: PublicKey)
        ensures
            key@ == bytes@,
    {
        PublicKey { bytes }
    }

    /// The 32 bytes of the key.
    pub fn as_bytes(&self) -> (bytes: &[u8; 32])
        ensures
            bytes@ == self@,
    {
        &self.bytes
    }

    /// Every key is 32 bytes long.
    pub proof fn lemma_len(&self)
        ensures
            self@.len() == 32,
    {
    }
}

/// A long-term identity, held as its 32 secret bytes.
pub struct Identity {
    secret: [u8; 32],
}

impl View for Identity {
    type V = Seq<u8>;

    closed spec fn view(&self) -> Seq<u8> {
        self.secret@
    }
}

impl Identity {
    /// Builds an identity from a 32-byte X25519 secret. Every 32-byte string
    /// is a valid X25519 secret, so this cannot fail.
    pub fn from_secret_bytes(secret: [u8; 32]) -> (id: Identity)
        ensures
            id@ == secret@,
    {
        Identity { secret }
    }

    /// The 32 secret bytes the identity was built from.
    pub fn secret_bytes(&self) -> (secret: [u8; 32])
        ensures
            secret@ == self@,
    {
        self.secret
    }
}

} // verus!
