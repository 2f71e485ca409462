//! An Ed25519 keypair: the secret key together with the public key derived
//! from it, as `ed25519-dalek`'s `SigningKey` keeps them.

use vstd::prelude::*;
use vstd::utf8::encode_utf8;

use crate::crypto::{
    ed25519_point_valid, ed25519_public_key, ed25519_public_key_of, ed25519_sign,
    ed25519_signature, random_secret_key,
};
use crate::hexcodec::{hex_encode, hex_encode_spec, lemma_hex_encode_len, lemma_hex_roundtrip};
use crate::identity::{verify_signature_spec, Signature, SignatureError};

verus! {

/// A secret key and its public key.
pub struct Keypair {
    secret: [u8; 32],
    public: [u8; 32],
}

impl Keypair {
    #[verifier::type_invariant]
    closed spec fn derived(&self) -> bool {
        &&& self.public@ == ed25519_public_key(self.secret@)
        &&& ed25519_point_valid(self.public@)
    }

    /// The 32 secret key bytes.
    pub closed spec fn secret_spec(&self) -> Seq<u8> {
        self.secret@
    }

    /// The keypair built from 32 secret bytes.
    pub fn from_secret(secret: [u8; 32]) -> (res: Keypair)
        ensures
            res.secret_spec() == secret@,
    {
        let public = ed25519_public_key_of(&secret);
        Keypair { secret, public }
    }

    /// A fresh keypair from the operating system's random source.
    pub fn generate() -> (res: Keypair) {
        Self::from_secret(random_secret_key())
    }

    /// The 32 secret key bytes.
    pub fn secret_bytes(&self) -> (res: [u8; 32])
        ensures
            res@ == self.secret_spec(),
    {
        self.secret
    }

    /// The 32 public key bytes.
    pub fn public_bytes(&self) -> (res: [u8; 32])
        ensures
            res@ == ed25519_public_key(self.secret_spec()),
    {
        proof {
            use_type_invariant(self);
        }
        self.public
    }

    /// The public key as lowercase hex text (64 characters).
    pub fn public_key_hex(&self) -> (res: String)
        ensures
            res@ == hex_encode_spec(ed25519_public_key(self.secret_spec())),
            res@.len() == 64,
    {
        proof {
            use_type_invariant(self);
            lemma_hex_encode_len(self.public@);
        }
        hex_encode(&self.public)
    }

    /// Signs `message`. The signature passes `verify_signature` with the
    /// hex text of this keypair's public key.
    pub fn sign(&self, message: &[u8]) -> (res: Signature)
        ensures
            res@ == ed25519_signature(self.secret_spec(), message@),
            verify_signature_spec(
                encode_utf8(hex_encode_spec(ed25519_public_key(self.secret_spec()))),
                message@,
                res@,
            ) == Ok::<(), SignatureError>(()),
    {
        proof {
            use_type_invariant(self);
            lemma_hex_roundtrip(self.public@);
        }
        let sig = ed25519_sign(&self.secret, message);
        Signature::from_bytes(&sig)
    }
}

} // verus!
