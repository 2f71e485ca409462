//! The master keypair, derived from the identity's entropy with HKDF so
//! that its public key differs from subkey 0's.

use vstd::prelude::*;
use vstd::string::StringSliceAdditionalSpecFns;
use vstd::utf8::encode_utf8;

use crate::crypto::{
    bip39_english_entropy, bip39_entropy, ed25519_public_key, ed25519_signature, hkdf_sha256_32,
    hkdf_sha256_expand_32,
};
use crate::hexcodec::hex_encode_spec;
use crate::identity::{
    bytes_to_array_32, verify_signature_spec, IdentityError, Signature, SignatureError, VerifyingKey,
    MASTER_HKDF_INFO,
};
use crate::keypair::Keypair;

verus! {

/// The user's master keypair: it signs certificates, home hub lists and
/// revocations for every device of the user.
pub struct MasterIdentity {
    keypair: Keypair,
}

impl MasterIdentity {
    /// The 32 secret key bytes.
    pub closed spec fn secret_spec(&self) -> Seq<u8> {
        self.keypair.secret_spec()
    }

    /// The 32 public key bytes.
    pub open spec fn public_key_spec(&self) -> Seq<u8> {
        ed25519_public_key(self.secret_spec())
    }

    /// Derives the master keypair from 32 bytes of BIP39 entropy:
    /// HKDF-SHA256 with no salt and the master context string.
    pub fn derive_from_entropy(entropy: &[u8; 32]) -> (res: Result<MasterIdentity, IdentityError>)
        ensures
            res matches Ok(m) && m.secret_spec() == hkdf_sha256_32(entropy@, MASTER_HKDF_INFO.spec_bytes()),
    {
        match hkdf_sha256_expand_32(entropy, MASTER_HKDF_INFO.as_bytes()) {
            Some(okm) => Ok(MasterIdentity { keypair: Keypair::from_secret(okm) }),
            None => Err(IdentityError::KeyDerivation),
        }
    }

    /// Derives the master keypair from a recovery phrase.
    pub fn derive_from_phrase(phrase: &str) -> (res: Result<MasterIdentity, IdentityError>)
        ensures
            match bip39_english_entropy(phrase@) {
                None => res == Err::<MasterIdentity, IdentityError>(IdentityError::InvalidRecoveryPhrase),
                Some(e) => if e.len() != 32 {
                    res == Err::<MasterIdentity, IdentityError>(IdentityError::RecoveryEntropyLength)
                } else {
                    res matches Ok(m) && m.secret_spec() == hkdf_sha256_32(e, MASTER_HKDF_INFO.spec_bytes())
                },
            },
    {
        let entropy = match bip39_entropy(phrase) {
            Some(e) => e,
            None => return Err(IdentityError::InvalidRecoveryPhrase),
        };
        match bytes_to_array_32(&entropy) {
            Some(a) => Self::derive_from_entropy(&a),
            None => Err(IdentityError::RecoveryEntropyLength),
        }
    }

    /// The master public key as lowercase hex text.
    pub fn public_key_hex(&self) -> (res: String)
        ensures
            res@ == hex_encode_spec(self.public_key_spec()),
            res@.len() == 64,
    {
        self.keypair.public_key_hex()
    }

    /// Signs `message` with the master key.
    pub fn sign(&self, message: &[u8]) -> (res: Signature)
        ensures
            res@ == ed25519_signature(self.secret_spec(), message@),
            verify_signature_spec(
                encode_utf8(hex_encode_spec(self.public_key_spec())),
                message@,
                res@,
            ) == Ok::<(), SignatureError>(()),
    {
        self.keypair.sign(message)
    }

    /// The master public key.
    pub fn verifying_key(&self) -> (res: VerifyingKey)
        ensures
            res@ == self.public_key_spec(),
    {
        VerifyingKey::from_public_bytes(self.keypair.public_bytes())
    }
}

} // verus!
