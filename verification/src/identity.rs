//! Keypair identities: the per-device `Identity` (which also backs subkey 0
//! and the BIP39 recovery phrase), signatures, and signature verification
//! against a hex-encoded public key.

use vstd::prelude::*;
use vstd::string::StringSliceAdditionalSpecFns;
use vstd::utf8::encode_utf8;

use crate::crypto::{
    bip39_english_entropy, bip39_english_phrase, bip39_entropy, bip39_phrase, ed25519_accepts,
    ed25519_point_valid, ed25519_public_key, ed25519_signature, ed25519_verify, hkdf_sha256_32,
    is_sentence_of, Ed25519Verdict,
};
use crate::hexcodec::{hex_decode, hex_decode_spec, hex_encode, hex_encode_spec, lemma_hex_roundtrip};
use crate::keypair::Keypair;
use crate::master::MasterIdentity;
use crate::subkey::DeviceSubkey;

verus! {

/// HKDF context that domain-separates the master key from subkey 0.
pub const MASTER_HKDF_INFO: &'static str = "voxply/master/v1";

/// A 64-byte Ed25519 signature.
#[derive(Clone, Copy, Debug)]
pub struct Signature {
    bytes: [u8; 64],
}

impl View for Signature {
    type V = Seq<u8>;

    closed spec fn view(&self) -> Seq<u8> {
        self.bytes@
    }
}

impl Signature {
    /// Wraps 64 signature bytes.
    pub fn from_bytes(bytes: &[u8; 64]) -> (res: Signature)
        ensures
            res@ == bytes@,
    {
        Signature { bytes: *bytes }
    }

    /// The 64 signature bytes.
    pub fn to_bytes(&self) -> (res: [u8; 64])
        ensures
            res@ == self@,
    {
        self.bytes
    }
}

/// A 32-byte Ed25519 public key.
#[derive(Clone, Copy, Debug)]
pub struct VerifyingKey {
    bytes: [u8; 32],
}

impl View for VerifyingKey {
    type V = Seq<u8>;

    closed spec fn view(&self) -> Seq<u8> {
        self.bytes@
    }
}

impl VerifyingKey {
    pub(crate) fn from_public_bytes(bytes: [u8; 32]) -> (res: VerifyingKey)
        ensures
            res@ == bytes@,
    {
        VerifyingKey { bytes }
    }

    /// The 32 public key bytes.
    pub fn to_bytes(&self) -> (res: [u8; 32])
        ensures
            res@ == self@,
    {
        self.bytes
    }

    /// The 32 public key bytes, borrowed.
    pub fn as_bytes(&self) -> (res: &[u8; 32])
        ensures
            res@ == self@,
    {
        &self.bytes
    }
}

/// Why `verify_signature` refused a signature.
#[derive(Clone, Copy, Debug, PartialEq, Eq, Structural)]
pub enum SignatureError {
    /// The public key is not hex text.
    InvalidPublicKeyHex,
    /// The public key does not decode to 32 bytes.
    PublicKeyLength,
    /// The 32 bytes are not an Ed25519 public key.
    InvalidPublicKey,
    /// The signature is not 64 bytes.
    SignatureLength,
    /// The signature does not verify.
    VerificationFailed,
}

/// Why an identity could not be built.
#[derive(Clone, Copy, Debug, PartialEq, Eq, Structural)]
pub enum IdentityError {
    /// The stored secret key is not hex text.
    InvalidSecretHex,
    /// The stored secret key is not 32 bytes.
    SecretKeyLength,
    /// The recovery phrase is not a valid English BIP39 mnemonic.
    InvalidRecoveryPhrase,
    /// The recovery phrase encodes entropy of a length other than 32 bytes.
    RecoveryEntropyLength,
    /// HKDF refused to expand the key material.
    KeyDerivation,
}

/// The outcome of verifying `signature` over `message` with the public key
/// whose hex text (as bytes) is `public_key_hex`, in the order the checks are made.
pub open spec fn verify_signature_spec(public_key_hex: Seq<u8>, message: Seq<u8>, signature: Seq<u8>) -> Result<(), SignatureError> {
    match hex_decode_spec(public_key_hex) {
        None => Err(SignatureError::InvalidPublicKeyHex),
        Some(pk) => if pk.len() != 32 {
            Err(SignatureError::PublicKeyLength)
        } else if !ed25519_point_valid(pk) {
            Err(SignatureError::InvalidPublicKey)
        } else if signature.len() != 64 {
            Err(SignatureError::SignatureLength)
        } else if !ed25519_accepts(pk, message, signature) {
            Err(SignatureError::VerificationFailed)
        } else {
            Ok(())
        },
    }
}

/// Verifies an Ed25519 signature against a hex-encoded public key.
pub fn verify_signature(public_key_hex: &str, message: &[u8], signature_bytes: &[u8]) -> (res: Result<(), SignatureError>)
    ensures
        res == verify_signature_spec(public_key_hex.spec_bytes(), message@, signature_bytes@),
{
    let pub_bytes = match hex_decode(public_key_hex.as_bytes()) {
        Some(b) => b,
        None => return Err(SignatureError::InvalidPublicKeyHex),
    };
    if pub_bytes.len() != 32 {
        return Err(SignatureError::PublicKeyLength);
    }
    let mut pub_array = [0u8; 32];
    let mut i: usize = 0;
    while i < 32
        invariant
            0 <= i <= 32,
            pub_bytes@.len() == 32,
            forall|j: int| 0 <= j < i ==> pub_array@[j] == pub_bytes@[j],
        decreases 32 - i,
    {
        pub_array[i] = pub_bytes[i];
        i = i + 1;
    }
    assert(pub_array@ =~= pub_bytes@);
    if signature_bytes.len() != 64 {
        // The key is judged before the signature's length.
        let probe = ed25519_verify(&pub_array, message, &[0u8; 64]);
        if probe == Ed25519Verdict::InvalidKey {
            return Err(SignatureError::InvalidPublicKey);
        }
        return Err(SignatureError::SignatureLength);
    }
    let mut sig_array = [0u8; 64];
    let mut k: usize = 0;
    while k < 64
        invariant
            0 <= k <= 64,
            signature_bytes@.len() == 64,
            forall|j: int| 0 <= j < k ==> sig_array@[j] == signature_bytes@[j],
        decreases 64 - k,
    {
        sig_array[k] = signature_bytes[k];
        k = k + 1;
    }
    assert(sig_array@ =~= signature_bytes@);
    match ed25519_verify(&pub_array, message, &sig_array) {
        Ed25519Verdict::Accepted => Ok(()),
        Ed25519Verdict::InvalidKey => Err(SignatureError::InvalidPublicKey),
        Ed25519Verdict::Mismatch => Err(SignatureError::VerificationFailed),
    }
}

/// A device's long-lived keypair, with its proof-of-work nonce and level.
pub struct Identity {
    keypair: Keypair,
    pub security_nonce: u64,
    pub security_level: u32,
}

/// The on-disk form of an identity: the secret key as hex text and the
/// proof-of-work state, both optional in older files.
#[derive(Debug)]
pub struct SavedIdentity {
    pub secret_key: String,
    pub security_nonce: Option<u64>,
    pub security_level: Option<u32>,
}

impl Identity {
    /// The 32 secret key bytes.
    pub closed spec fn secret_spec(&self) -> Seq<u8> {
        self.keypair.secret_spec()
    }

    /// The proof-of-work nonce.
    pub closed spec fn nonce_spec(&self) -> u64 {
        self.security_nonce
    }

    /// The proof-of-work level.
    pub closed spec fn level_spec(&self) -> u32 {
        self.security_level
    }

    /// The 32 public key bytes.
    pub open spec fn public_key_spec(&self) -> Seq<u8> {
        ed25519_public_key(self.secret_spec())
    }

    /// The public key as lowercase hex text.
    pub open spec fn public_key_hex_spec(&self) -> Seq<char> {
        hex_encode_spec(self.public_key_spec())
    }

    /// A fresh identity from the operating system's random source, with no
    /// proof of work yet.
    pub fn generate() -> (res: Identity)
        ensures
            res.nonce_spec() == 0,
            res.level_spec() == 0,
    {
        Identity { keypair: Keypair::generate(), security_nonce: 0, security_level: 0 }
    }

    /// The public key as lowercase hex text (64 characters).
    pub fn public_key_hex(&self) -> (res: String)
        ensures
            res@ == self.public_key_hex_spec(),
            res@.len() == 64,
    {
        self.keypair.public_key_hex()
    }

    /// Signs `message` with the identity's secret key. The signature passes
    /// `verify_signature` with the identity's public key hex.
    pub fn sign(&self, message: &[u8]) -> (res: Signature)
        ensures
            res@ == ed25519_signature(self.secret_spec(), message@),
            verify_signature_spec(encode_utf8(self.public_key_hex_spec()), message@, res@) == Ok::<(), SignatureError>(()),
    {
        self.keypair.sign(message)
    }

    /// The identity's public key.
    pub fn verifying_key(&self) -> (res: VerifyingKey)
        ensures
            res@ == self.public_key_spec(),
    {
        VerifyingKey { bytes: self.keypair.public_bytes() }
    }

    /// The on-disk form: the secret key as hex text and the proof-of-work
    /// state. Reading it back with `from_saved` gives this identity again.
    pub fn to_saved(&self) -> (res: SavedIdentity)
        ensures
            res.secret_key@ == hex_encode_spec(self.secret_spec()),
            res.security_nonce == Some(self.nonce_spec()),
            res.security_level == Some(self.level_spec()),
            hex_decode_spec(encode_utf8(res.secret_key@)) == Some(self.secret_spec()),
            self.secret_spec().len() == 32,
    {
        proof {
            lemma_hex_roundtrip(self.secret_spec());
        }
        SavedIdentity {
            secret_key: hex_encode(&self.keypair.secret_bytes()),
            security_nonce: Some(self.security_nonce),
            security_level: Some(self.security_level),
        }
    }

    /// Rebuilds an identity from its on-disk form; missing proof-of-work
    /// fields count as 0.
    pub fn from_saved(saved: &SavedIdentity) -> (res: Result<Identity, IdentityError>)
        ensures
            match hex_decode_spec(encode_utf8(saved.secret_key@)) {
                None => res == Err::<Identity, IdentityError>(IdentityError::InvalidSecretHex),
                Some(secret) => if secret.len() != 32 {
                    res == Err::<Identity, IdentityError>(IdentityError::SecretKeyLength)
                } else {
                    res matches Ok(id) && id.secret_spec() == secret
                        && id.nonce_spec() == (match saved.security_nonce { Some(n) => n, None => 0 })
                        && id.level_spec() == (match saved.security_level { Some(l) => l, None => 0 })
                },
            },
    {
        let bytes = match hex_decode(saved.secret_key.as_str().as_bytes()) {
            Some(b) => b,
            None => return Err(IdentityError::InvalidSecretHex),
        };
        let secret_key = match bytes_to_array_32(&bytes) {
            Some(a) => a,
            None => return Err(IdentityError::SecretKeyLength),
        };
        let security_nonce = match saved.security_nonce {
            Some(n) => n,
            None => 0,
        };
        let security_level = match saved.security_level {
            Some(l) => l,
            None => 0,
        };
        Ok(Identity { keypair: Keypair::from_secret(secret_key), security_nonce, security_level })
    }

    /// Derives the master keypair from this identity's secret bytes.
    pub fn master(&self) -> (res: Result<MasterIdentity, IdentityError>)
        ensures
            res matches Ok(m) && m.secret_spec() == hkdf_sha256_32(self.secret_spec(), MASTER_HKDF_INFO.spec_bytes()),
    {
        MasterIdentity::derive_from_entropy(&self.keypair.secret_bytes())
    }

    /// This identity as subkey 0, under a user-facing label: the same
    /// keypair, so hubs that predate subkeys see the same public key.
    pub fn as_subkey_zero(&self, label: String) -> (res: DeviceSubkey)
        ensures
            res.secret_spec() == self.secret_spec(),
            res.public_key_spec() == self.public_key_spec(),
            res.label_spec() == label@,
    {
        DeviceSubkey::subkey_zero_from_entropy(&self.keypair.secret_bytes(), label)
    }

    /// The 24-word English recovery phrase of the secret key. Restoring
    /// from it gives back this secret key.
    pub fn recovery_phrase(&self) -> (res: String)
        ensures
            res@ == bip39_english_phrase(self.secret_spec()),
            bip39_english_entropy(res@) == Some(self.secret_spec()),
            is_sentence_of(res@, 24),
            self.secret_spec().len() == 32,
    {
        bip39_phrase(&self.keypair.secret_bytes())
    }

    /// Restores an identity from a recovery phrase; the proof-of-work state
    /// starts over at 0.
    pub fn from_recovery_phrase(phrase: &str) -> (res: Result<Identity, IdentityError>)
        ensures
            match bip39_english_entropy(phrase@) {
                None => res == Err::<Identity, IdentityError>(IdentityError::InvalidRecoveryPhrase),
                Some(e) => if e.len() != 32 {
                    res == Err::<Identity, IdentityError>(IdentityError::RecoveryEntropyLength)
                } else {
                    res matches Ok(id) && id.secret_spec() == e && id.nonce_spec() == 0
                        && id.level_spec() == 0
                },
            },
    {
        let entropy = match bip39_entropy(phrase) {
            Some(e) => e,
            None => return Err(IdentityError::InvalidRecoveryPhrase),
        };
        match bytes_to_array_32(&entropy) {
            Some(secret_key) => Ok(Identity { keypair: Keypair::from_secret(secret_key), security_nonce: 0, security_level: 0 }),
            None => Err(IdentityError::RecoveryEntropyLength),
        }
    }
}

/// The first 32 bytes as an array when there are exactly 32.
pub fn bytes_to_array_32(bytes: &Vec<u8>) -> (res: Option<[u8; 32]>)
    ensures
        bytes@.len() == 32 <==> res is Some,
        res matches Some(a) ==> a@ == bytes@,
{
    if bytes.len() != 32 {
        return None;
    }
    let mut out = [0u8; 32];
    let mut i: usize = 0;
    while i < 32
        invariant
            0 <= i <= 32,
            bytes@.len() == 32,
            forall|j: int| 0 <= j < i ==> out@[j] == bytes@[j],
        decreases 32 - i,
    {
        out[i] = bytes[i];
        i = i + 1;
    }
    assert(out@ =~= bytes@);
    Some(out)
}

} // verus!
