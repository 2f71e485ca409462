//! The cryptographic primitives the identities rest on: Ed25519 keys and
//! signatures (`ed25519-dalek`), SHA-256 (`sha2`), HKDF-SHA256 (`hkdf`), BIP39
//! English mnemonics (`bip39`), and the operating system's random source.
//!
//! Nothing here is proved: each function below makes one outside call, and
//! its contract is what that crate's source shows about the call. What the
//! primitives compute is named, not written out.

use ed25519_dalek::{Signer, Verifier};
use sha2::Digest;
use vstd::prelude::*;

verus! {

/// The 32-byte Ed25519 public key that `ed25519-dalek` derives from a 32-byte secret key.
pub uninterp spec fn ed25519_public_key(secret: Seq<u8>) -> Seq<u8>;

/// The 64-byte Ed25519 signature (deterministic, RFC 8032) of `message` under `secret`.
pub uninterp spec fn ed25519_signature(secret: Seq<u8>, message: Seq<u8>) -> Seq<u8>;

/// Whether 32 bytes decompress to a point of the curve (`VerifyingKey::from_bytes` succeeds).
pub uninterp spec fn ed25519_point_valid(public_key: Seq<u8>) -> bool;

/// Whether `ed25519-dalek`'s `verify` accepts `signature` over `message` for `public_key`.
pub uninterp spec fn ed25519_accepts(public_key: Seq<u8>, message: Seq<u8>, signature: Seq<u8>) -> bool;

/// The SHA-256 digest of `data`.
pub uninterp spec fn sha256_digest(data: Seq<u8>) -> Seq<u8>;

/// The first 32 bytes of HKDF-SHA256 output for input key material `ikm`,
/// no salt, and context `info`.
pub uninterp spec fn hkdf_sha256_32(ikm: Seq<u8>, info: Seq<u8>) -> Seq<u8>;

/// The English BIP39 mnemonic sentence for `entropy`, words joined by single spaces.
pub uninterp spec fn bip39_english_phrase(entropy: Seq<u8>) -> Seq<char>;

/// The entropy that an English BIP39 sentence encodes, `None` when the
/// sentence is not a valid mnemonic (word count, unknown word, checksum).
pub uninterp spec fn bip39_english_entropy(phrase: Seq<char>) -> Option<Seq<u8>>;

/// Whether a word is a nonempty run of the lowercase letters `a` to `z`,
/// as every word of the English BIP39 list is.
pub open spec fn is_lowercase_word(w: Seq<char>) -> bool {
    w.len() > 0 && forall|i: int| 0 <= i < w.len() ==> 'a' <= #[trigger] w[i] <= 'z'
}

/// Words joined by single spaces.
pub open spec fn space_joined(words: Seq<Seq<char>>) -> Seq<char>
    decreases words.len(),
{
    if words.len() == 0 {
        Seq::empty()
    } else if words.len() == 1 {
        words[0]
    } else {
        space_joined(words.drop_last()) + seq![' '] + words.last()
    }
}

/// Whether a text is `n` lowercase words joined by single spaces.
pub open spec fn is_sentence_of(text: Seq<char>, n: nat) -> bool {
    exists|words: Seq<Seq<char>>| {
        &&& words.len() == n
        &&& forall|i: int| 0 <= i < n ==> is_lowercase_word(#[trigger] words[i])
        &&& text == space_joined(words)
    }
}

/// The outcome of `ed25519_verify`.
#[derive(Clone, Copy, Debug, PartialEq, Eq, Structural)]
pub enum Ed25519Verdict {
    /// The signature verifies.
    Accepted,
    /// The public key bytes are not a curve point.
    InvalidKey,
    /// The signature does not verify.
    Mismatch,
}

/// `SigningKey::from_bytes(secret).verifying_key()`: the public key of a
/// secret key. Claims that the result is the named public key, and that it
/// always decodes again as a key, since the crate stores it as the
/// compression of a curve point.
#[verifier::external_body]
pub(crate) fn ed25519_public_key_of(secret: &[u8; 32]) -> (res: [u8; 32])
    ensures
        res@ == ed25519_public_key(secret@),
        ed25519_point_valid(res@),
{
    ed25519_dalek::SigningKey::from_bytes(secret).verifying_key().to_bytes()
}

/// `Signer::sign` of a `SigningKey` built from `secret`. Claims that the
/// result is the named signature and that verification with the matching
/// public key accepts it (Ed25519 correctness).
#[verifier::external_body]
pub(crate) fn ed25519_sign(secret: &[u8; 32], message: &[u8]) -> (res: [u8; 64])
    ensures
        res@ == ed25519_signature(secret@, message@),
        ed25519_accepts(ed25519_public_key(secret@), message@, res@),
{
    ed25519_dalek::SigningKey::from_bytes(secret).sign(message).to_bytes()
}

/// `VerifyingKey::from_bytes` followed by `Verifier::verify`. Claims that
/// the key is refused exactly when it is no curve point, and that otherwise
/// the call succeeds exactly when verification accepts.
#[verifier::external_body]
pub(crate) fn ed25519_verify(public_key: &[u8; 32], message: &[u8], signature: &[u8; 64]) -> (res: Ed25519Verdict)
    ensures
        (res == Ed25519Verdict::InvalidKey) == !ed25519_point_valid(public_key@),
        (res == Ed25519Verdict::Accepted) == (ed25519_point_valid(public_key@) && ed25519_accepts(public_key@, message@, signature@)),
{
    let key = match ed25519_dalek::VerifyingKey::from_bytes(public_key) {
        Ok(k) => k,
        Err(_) => return Ed25519Verdict::InvalidKey,
    };
    match key.verify(message, &ed25519_dalek::Signature::from_bytes(signature)) {
        Ok(()) => Ed25519Verdict::Accepted,
        Err(_) => Ed25519Verdict::Mismatch,
    }
}

/// `SigningKey::generate(&mut OsRng)`: 32 fresh random secret bytes. Nothing
/// is claimed of them.
#[verifier::external_body]
pub(crate) fn random_secret_key() -> (res: [u8; 32]) {
    ed25519_dalek::SigningKey::generate(&mut rand::rngs::OsRng).to_bytes()
}

/// `RngCore::fill_bytes` on `rand::thread_rng()`: 32 fresh random bytes.
/// Nothing is claimed of them.
#[verifier::external_body]
pub(crate) fn random_bytes_32() -> (res: [u8; 32]) {
    let mut buf = [0u8; 32];
    rand::RngCore::fill_bytes(&mut rand::thread_rng(), &mut buf);
    buf
}

/// `Sha256::digest`: the 32-byte digest of `data`.
#[verifier::external_body]
pub(crate) fn sha256(data: &[u8]) -> (res: [u8; 32])
    ensures
        res@ == sha256_digest(data@),
{
    sha2::Sha256::digest(data).into()
}

/// `Hkdf::<Sha256>::new(None, ikm).expand(info, &mut [0u8; 32])`. The
/// crate refuses only an output longer than 255 hash blocks, so for 32
/// bytes the call always succeeds.
#[verifier::external_body]
pub(crate) fn hkdf_sha256_expand_32(ikm: &[u8; 32], info: &[u8]) -> (res: Option<[u8; 32]>)
    ensures
        res is Some,
        res matches Some(okm) ==> okm@ == hkdf_sha256_32(ikm@, info@),
{
    let hk = hkdf::Hkdf::<sha2::Sha256>::new(None, ikm);
    let mut okm = [0u8; 32];
    match hk.expand(info, &mut okm) {
        Ok(()) => Some(okm),
        Err(_) => None,
    }
}

/// `Mnemonic::from_entropy_in(English, entropy)` rendered with `Display`.
/// 256 bits of entropy are always accepted by the crate. Claims that
/// parsing the sentence gives the entropy back: the words are the 11-bit
/// groups of entropy plus checksum, and parsing recomputes both. Claims
/// too that the sentence is 24 words (the crate makes `32 * 3 / 4` words of
/// 32 bytes), each from the English list, whose words are all lowercase
/// letters, and that `Display` joins them with single spaces.
#[verifier::external_body]
pub(crate) fn bip39_phrase(entropy: &[u8; 32]) -> (res: String)
    ensures
        res@ == bip39_english_phrase(entropy@),
        bip39_english_entropy(res@) == Some(entropy@),
        is_sentence_of(res@, 24),
{
    bip39::Mnemonic::from_entropy_in(bip39::Language::English, entropy)
        .expect("32 bytes of entropy make a mnemonic")
        .to_string()
}

/// `Mnemonic::parse_in(English, phrase)` then `to_entropy()`.
#[verifier::external_body]
pub(crate) fn bip39_entropy(phrase: &str) -> (res: Option<Vec<u8>>)
    ensures
        match res {
            Some(e) => bip39_english_entropy(phrase@) == Some(e@),
            None => bip39_english_entropy(phrase@) is None,
        },
{
    bip39::Mnemonic::parse_in(bip39::Language::English, phrase).ok().map(|m| m.to_entropy())
}

} // verus!
