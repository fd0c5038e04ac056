//! Ed25519 identities of mesh nodes.

use vstd::prelude::*;
use crate::error::CoreError;
use crate::hexcode::{hex_lower, to_hex};
use ed25519_dalek::{Signer, Verifier};

verus! {

/// The public key that ed25519 derives from a 32-byte secret key.
pub uninterp spec fn ed25519_public(secret: Seq<u8>) -> Seq<u8>;

/// The (deterministic) ed25519 signature of a message under a secret key.
pub uninterp spec fn ed25519_signature(secret: Seq<u8>, message: Seq<u8>) -> Seq<u8>;

/// Whether a 32-byte public key decodes to a curve point under which the
/// 64-byte signature verifies for the message.
pub uninterp spec fn ed25519_accepts(public: Seq<u8>, message: Seq<u8>, signature: Seq<u8>) -> bool;

/// Calls `SigningKey::generate` with the operating system's generator and
/// returns the key's 32 bytes; nothing is claimed of their value.
#[verifier::external_body]
fn random_secret_key() -> (r: [u8; 32]) {
    ed25519_dalek::SigningKey::generate(&mut rand::rngs::OsRng).to_bytes()
}

/// Calls `SigningKey::verifying_key` on the key made from `secret` and
/// returns the public key's 32 bytes, a function of `secret` alone.
#[verifier::external_body]
fn public_key_of(secret: &[u8; 32]) -> (r: [u8; 32])
    ensures
        r@ == ed25519_public(secret@),
{
    ed25519_dalek::SigningKey::from_bytes(secret).verifying_key().to_bytes()
}

/// Calls `Signer::sign` of the key made from `secret` and returns the
/// signature's 64 bytes. Ed25519 signing is deterministic, and the crate
/// documents that the key's own public half verifies what it signed.
#[verifier::external_body]
fn sign_message(secret: &[u8; 32], message: &[u8]) -> (r: [u8; 64])
    ensures
        r@ == ed25519_signature(secret@, message@),
        ed25519_accepts(ed25519_public(secret@), message@, r@),
{
    ed25519_dalek::SigningKey::from_bytes(secret).sign(message).to_bytes()
}

/// Calls `Verifier::verify` of the public key decoded from `public`
/// (`VerifyingKey::from_bytes`) on the message and signature; a key that
/// does not decode verifies nothing.
#[verifier::external_body]
fn verify_message(public: &[u8; 32], message: &[u8], signature: &[u8; 64]) -> (r: bool)
    ensures
        r == ed25519_accepts(public@, message@, signature@),
{
    match ed25519_dalek::VerifyingKey::from_bytes(public) {
        Ok(key) => key.verify(message, &ed25519_dalek::Signature::from_bytes(signature)).is_ok(),
        Err(_) => false,
    }
}

/// The public half of a node's key pair.
#[derive(Debug, Clone, Copy, PartialEq, Eq)]
pub struct VerifyingKey {
    pub bytes: [u8; 32],
}

impl VerifyingKey {
    pub fn to_bytes(&self) -> (r: [u8; 32])
        ensures
            r == self.bytes,
    {
        self.bytes
    }

    /// Whether `signature` is a valid signature of `message` under this key.
    pub fn verify_bytes(&self, message: &[u8], signature: &Signature) -> (r: bool)
        ensures
            r == ed25519_accepts(self.bytes@, message@, signature.bytes@),
    {
        verify_message(&self.bytes, message, &signature.bytes)
    }
}

/// An ed25519 signature.
#[derive(Debug, Clone, Copy, PartialEq, Eq)]
pub struct Signature {
    pub bytes: [u8; 64],
}

impl Signature {
    pub fn to_bytes(&self) -> (r: [u8; 64])
        ensures
            r == self.bytes,
    {
        self.bytes
    }
}

/// A node's ed25519 identity: its secret key and the public key derived
/// from it.
pub struct NodeIdentity {
    signing_key: [u8; 32],
    verifying_key: [u8; 32],
}

impl NodeIdentity {
    #[verifier::type_invariant]
    spec fn keys_match(self) -> bool {
        self.verifying_key@ == ed25519_public(self.signing_key@)
    }

    /// The 32 bytes of the secret key.
    pub closed spec fn secret_key(&self) -> Seq<u8> {
        self.signing_key@
    }

    /// The 32 bytes of the public key.
    pub open spec fn public_key(&self) -> Seq<u8> {
        ed25519_public(self.secret_key())
    }

    /// A fresh identity with a random secret key.
    pub fn new() -> (r: Self)
        ensures
            r.secret_key().len() == 32,
    {
        let signing_key = random_secret_key();
        let verifying_key = public_key_of(&signing_key);
        NodeIdentity { signing_key, verifying_key }
    }

    /// Hex-encoded 32-byte public key, the node's stable peer identifier.
    pub fn peer_id_hex(&self) -> (r: String)
        ensures
            r@ == hex_lower(self.public_key()),
            r@.len() == 64,
    {
        proof {
            use_type_invariant(self);
        }
        to_hex(&self.verifying_key)
    }

    pub fn verifying_key(&self) -> (r: VerifyingKey)
        ensures
            r.bytes@ == self.public_key(),
    {
        proof {
            use_type_invariant(self);
        }
        VerifyingKey { bytes: self.verifying_key }
    }

    /// Signs arbitrary bytes.
    pub fn sign_bytes(&self, bytes: &[u8]) -> (r: Signature)
        ensures
            r.bytes@ == ed25519_signature(self.secret_key(), bytes@),
            ed25519_accepts(self.public_key(), bytes@, r.bytes@),
    {
        Signature { bytes: sign_message(&self.signing_key, bytes) }
    }

    /// The raw 32-byte signing key, the bytes that persisting the identity
    /// writes.
    pub fn save(&self) -> (r: [u8; 32])
        ensures
            r@ == self.secret_key(),
    {
        self.signing_key
    }

    /// The identity stored as `bytes` by `save`; refused unless the bytes
    /// are exactly 32.
    pub fn load(bytes: &[u8]) -> (r: Result<Self, CoreError>)
        ensures
            loads_as(bytes@, r),
    {
        if bytes.len() != 32 {
            return Err(CoreError::InvalidKeyLength);
        }
        let mut signing_key = [0u8; 32];
        for i in 0..32
            invariant
                bytes@.len() == 32,
                forall|j: int| 0 <= j < i ==> signing_key@[j] == bytes@[j],
        {
            signing_key[i] = bytes[i];
        }
        assert(signing_key@ =~= bytes@);
        let verifying_key = public_key_of(&signing_key);
        Ok(NodeIdentity { signing_key, verifying_key })
    }
}

impl Default for NodeIdentity {
    fn default() -> (r: Self)
        ensures
            r.secret_key().len() == 32,
    {
        Self::new()
    }
}

/// What loading the stored bytes `bytes` gives: the identity with that
/// secret key when they are 32 bytes, `InvalidKeyLength` otherwise.
pub open spec fn loads_as(bytes: Seq<u8>, r: Result<NodeIdentity, CoreError>) -> bool {
    if bytes.len() == 32 {
        r matches Ok(id) && id.secret_key() == bytes
    } else {
        r matches Err(CoreError::InvalidKeyLength)
    }
}

/// Loading what `save` wrote gives back an identity with the same secret
/// and public keys.
pub proof fn lemma_save_then_load(id: NodeIdentity, stored: Seq<u8>, loaded: Result<NodeIdentity, CoreError>)
    requires
        stored == id.secret_key(),
        loads_as(stored, loaded),
    ensures
        loaded matches Ok(l) && l.secret_key() == id.secret_key() && l.public_key() == id.public_key(),
{
}

} // verus!
