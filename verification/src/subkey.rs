//! Per-device subkeys: each device of a user signs with its own keypair,
//! certified by the master key.

use vstd::prelude::*;
use vstd::utf8::encode_utf8;

use crate::crypto::{ed25519_public_key, ed25519_signature};
use crate::hexcodec::hex_encode_spec;
use crate::identity::{verify_signature_spec, Signature, SignatureError, VerifyingKey};
use crate::keypair::Keypair;

verus! {

/// A device's own keypair with a user-facing label.
pub struct DeviceSubkey {
    keypair: Keypair,
    label: String,
}

impl DeviceSubkey {
    /// The 32 secret key bytes.
    pub closed spec fn secret_spec(&self) -> Seq<u8> {
        self.keypair.secret_spec()
    }

    /// The label.
    pub closed spec fn label_spec(&self) -> Seq<char> {
        self.label@
    }

    /// The 32 public key bytes.
    pub open spec fn public_key_spec(&self) -> Seq<u8> {
        ed25519_public_key(self.secret_spec())
    }

    /// A fresh random subkey.
    pub fn generate(label: String) -> (res: DeviceSubkey)
        ensures
            res.label_spec() == label@,
    {
        DeviceSubkey { keypair: Keypair::generate(), label }
    }

    /// Subkey 0 is the legacy single-key identity: the entropy is used as
    /// the secret key directly, so its public key is the identity's.
    pub fn subkey_zero_from_entropy(entropy: &[u8; 32], label: String) -> (res: DeviceSubkey)
        ensures
            res.secret_spec() == entropy@,
            res.label_spec() == label@,
    {
        DeviceSubkey { keypair: Keypair::from_secret(*entropy), label }
    }

    /// A subkey from its stored secret bytes.
    pub fn from_secret_bytes(secret: &[u8; 32], label: String) -> (res: DeviceSubkey)
        ensures
            res.secret_spec() == secret@,
            res.label_spec() == label@,
    {
        DeviceSubkey { keypair: Keypair::from_secret(*secret), label }
    }

    /// The secret bytes, for storage.
    pub fn secret_bytes(&self) -> (res: [u8; 32])
        ensures
            res@ == self.secret_spec(),
    {
        self.keypair.secret_bytes()
    }

    /// The label.
    pub fn label(&self) -> (res: &str)
        ensures
            res@ == self.label_spec(),
    {
        self.label.as_str()
    }

    /// The subkey's public key as lowercase hex text.
    pub fn public_key_hex(&self) -> (res: String)
        ensures
            res@ == hex_encode_spec(self.public_key_spec()),
            res@.len() == 64,
    {
        self.keypair.public_key_hex()
    }

    /// Signs `message` with the subkey.
    pub fn sign(&self, message: &[u8]) -> (res: Signature)
        ensures
            res@ == ed25519_signature(self.secret_spec(), message@),
            verify_signature_spec(
                encode_utf8(hex_encode_spec(self.public_key_spec())),
                message@,
                res@,
            ) == Ok::<(), SignatureError>(()),
    {
        self.keypair.sign(message)
    }

    /// The subkey's public key.
    pub fn verifying_key(&self) -> (res: VerifyingKey)
        ensures
            res@ == self.public_key_spec(),
    {
        VerifyingKey::from_public_bytes(self.keypair.public_bytes())
    }
}

} // verus!
