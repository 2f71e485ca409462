//! Signed wire formats of the multi-device protocol. Each payload has a
//! canonical byte encoding, its "signing bytes": a domain tag, then the
//! fields in order, strings and string lists length-prefixed with a
//! little-endian `u32`, integers as little-endian `u64`.

use vstd::prelude::*;
use vstd::string::StringSliceAdditionalSpecFns;
use vstd::utf8::encode_utf8;

use crate::crypto::{sha256, sha256_digest};
use crate::hexcodec::{hex_decode, hex_decode_spec};
use crate::identity::{verify_signature, verify_signature_spec, SignatureError};

verus! {

/// Domain tag of a home hub list.
pub const HOME_HUB_LIST_TAG: &'static str = "voxply/home-hub-list/v1\0";

/// Domain tag of a subkey certificate.
pub const SUBKEY_CERT_TAG: &'static str = "voxply/subkey-cert/v1\0";

/// Domain tag of a revocation entry.
pub const REVOCATION_TAG: &'static str = "voxply/revocation/v1\0";

/// Domain tag of a signed prefs blob.
pub const PREFS_BLOB_TAG: &'static str = "voxply/prefs-blob/v1\0";

/// Domain tag of a pairing offer.
pub const PAIRING_OFFER_TAG: &'static str = "voxply/pairing-offer/v1\0";

/// Domain tag of a pairing claim.
pub const PAIRING_CLAIM_TAG: &'static str = "voxply/pairing-claim/v1\0";

/// Little-endian bytes of a `u32`.
pub open spec fn le32(v: u32) -> Seq<u8> {
    seq![v as u8, (v >> 8u32) as u8, (v >> 16u32) as u8, (v >> 24u32) as u8]
}

/// Little-endian bytes of a `u64`.
pub open spec fn le64(v: u64) -> Seq<u8> {
    seq![
        v as u8,
        (v >> 8u64) as u8,
        (v >> 16u64) as u8,
        (v >> 24u64) as u8,
        (v >> 32u64) as u8,
        (v >> 40u64) as u8,
        (v >> 48u64) as u8,
        (v >> 56u64) as u8,
    ]
}

/// A string field: its UTF-8 byte length as a `u32` (truncated, as the
/// encoder casts), then its UTF-8 bytes.
pub open spec fn str_field(s: Seq<char>) -> Seq<u8> {
    le32(encode_utf8(s).len() as u32) + encode_utf8(s)
}

/// The string fields of a list, one after another.
pub open spec fn str_fields(v: Seq<Seq<char>>) -> Seq<u8>
    decreases v.len(),
{
    if v.len() == 0 {
        Seq::empty()
    } else {
        str_fields(v.drop_last()) + str_field(v.last())
    }
}

/// A string list field: the number of strings as a `u32`, then each string field.
pub open spec fn str_list_field(v: Seq<Seq<char>>) -> Seq<u8> {
    le32(v.len() as u32) + str_fields(v)
}

/// The characters of each string of a list.
pub open spec fn strings_view(v: Seq<String>) -> Seq<Seq<char>> {
    v.map_values(|s: String| s@)
}

/// An optional `u64` field: a 0 byte for none, a 1 byte and the value for some.
pub open spec fn opt_u64_field(v: Option<u64>) -> Seq<u8> {
    match v {
        Some(t) => seq![1u8] + le64(t),
        None => seq![0u8],
    }
}

/// Appends a `u32` in little-endian order.
pub fn write_u32_le(buf: &mut Vec<u8>, v: u32)
    ensures
        final(buf)@ == old(buf)@ + le32(v),
{
    buf.push(v as u8);
    buf.push((v >> 8u32) as u8);
    buf.push((v >> 16u32) as u8);
    buf.push((v >> 24u32) as u8);
    assert(final(buf)@ =~= old(buf)@ + le32(v));
}

/// Appends a `u64` in little-endian order.
pub fn write_u64_le(buf: &mut Vec<u8>, v: u64)
    ensures
        final(buf)@ == old(buf)@ + le64(v),
{
    buf.push(v as u8);
    buf.push((v >> 8u64) as u8);
    buf.push((v >> 16u64) as u8);
    buf.push((v >> 24u64) as u8);
    buf.push((v >> 32u64) as u8);
    buf.push((v >> 40u64) as u8);
    buf.push((v >> 48u64) as u8);
    buf.push((v >> 56u64) as u8);
    assert(final(buf)@ =~= old(buf)@ + le64(v));
}

fn write_bytes(buf: &mut Vec<u8>, bytes: &[u8])
    ensures
        final(buf)@ == old(buf)@ + bytes@,
{
    buf.extend_from_slice(bytes);
    assert(final(buf)@ =~= old(buf)@ + bytes@);
}

/// Appends a string field: its byte length as a `u32`, then its UTF-8 bytes.
pub fn write_str(buf: &mut Vec<u8>, s: &str)
    ensures
        final(buf)@ == old(buf)@ + str_field(s@),
{
    let bytes = s.as_bytes();
    write_u32_le(buf, #[verifier::truncate] (bytes.len() as u32));
    write_bytes(buf, bytes);
    assert(final(buf)@ =~= old(buf)@ + str_field(s@));
}

/// Appends a string list field: the number of strings as a `u32`, then
/// each string field.
pub fn write_str_vec(buf: &mut Vec<u8>, v: &[String])
    ensures
        final(buf)@ == old(buf)@ + str_list_field(strings_view(v@)),
{
    let ghost start = buf@;
    let ghost sv = strings_view(v@);
    write_u32_le(buf, #[verifier::truncate] (v.len() as u32));
    let mut i: usize = 0;
    while i < v.len()
        invariant
            0 <= i <= v@.len(),
            sv == strings_view(v@),
            sv.len() == v@.len(),
            buf@ == start + le32(v@.len() as u32) + str_fields(sv.take(i as int)),
        decreases v@.len() - i,
    {
        write_str(buf, v[i].as_str());
        proof {
            assert(sv.take(i + 1).drop_last() =~= sv.take(i as int));
            assert(sv.take(i + 1).last() == v@[i as int]@);
        }
        i = i + 1;
    }
    assert(sv.take(v@.len() as int) =~= sv);
}

fn write_opt_u64(buf: &mut Vec<u8>, v: Option<u64>)
    ensures
        final(buf)@ == old(buf)@ + opt_u64_field(v),
{
    match v {
        Some(t) => {
            buf.push(1u8);
            write_u64_le(buf, t);
        },
        None => buf.push(0u8),
    }
    assert(final(buf)@ =~= old(buf)@ + opt_u64_field(v));
}

fn tag_buffer(tag: &str) -> (res: Vec<u8>)
    ensures
        res@ == tag.spec_bytes(),
{
    let mut buf: Vec<u8> = Vec::new();
    write_bytes(&mut buf, tag.as_bytes());
    assert(buf@ =~= tag.spec_bytes());
    buf
}

/// Why a signed payload was refused.
#[derive(Clone, Copy, Debug, PartialEq, Eq, Structural)]
pub enum WireError {
    /// The signature field is not hex text.
    InvalidSignatureHex,
    /// The ciphertext field is not hex text.
    InvalidCiphertextHex,
    /// The signature does not verify against the named key.
    Signature(SignatureError),
}

/// The outcome of checking a hex signature over `signing_bytes` against a hex public key.
pub open spec fn check_sig_spec(public_key_hex: Seq<char>, signing_bytes: Seq<u8>, signature_hex: Seq<char>) -> Result<(), WireError> {
    match hex_decode_spec(encode_utf8(signature_hex)) {
        None => Err(WireError::InvalidSignatureHex),
        Some(sig) => match verify_signature_spec(encode_utf8(public_key_hex), signing_bytes, sig) {
            Ok(()) => Ok(()),
            Err(e) => Err(WireError::Signature(e)),
        },
    }
}

fn check_sig(public_key_hex: &str, signing_bytes: &[u8], signature_hex: &str) -> (res: Result<(), WireError>)
    ensures
        res == check_sig_spec(public_key_hex@, signing_bytes@, signature_hex@),
{
    let sig = match hex_decode(signature_hex.as_bytes()) {
        Some(s) => s,
        None => return Err(WireError::InvalidSignatureHex),
    };
    match verify_signature(public_key_hex, signing_bytes, sig.as_slice()) {
        Ok(()) => Ok(()),
        Err(e) => Err(WireError::Signature(e)),
    }
}

/// The signing bytes of a home hub list.
pub open spec fn home_hub_list_bytes(master_pubkey: Seq<char>, hubs: Seq<Seq<char>>, issued_at: u64, sequence: u64) -> Seq<u8> {
    HOME_HUB_LIST_TAG.spec_bytes() + str_field(master_pubkey) + str_list_field(hubs) + le64(issued_at)
        + le64(sequence)
}

/// Master-signed list of the user's home hubs, ordered by preference.
/// Slot 0 is the preferred read/write target; consumers fall through.
#[derive(Clone, Debug)]
pub struct HomeHubList {
    pub master_pubkey: String,
    pub hubs: Vec<String>,
    pub issued_at: u64,
    pub sequence: u64,
    pub signature: String,
}

impl HomeHubList {
    /// The signing bytes of this list.
    pub open spec fn signing_bytes_spec(&self) -> Seq<u8> {
        home_hub_list_bytes(self.master_pubkey@, strings_view(self.hubs@), self.issued_at, self.sequence)
    }

    /// Encodes a home hub list for signing.
    pub fn signing_bytes(master_pubkey: &str, hubs: &[String], issued_at: u64, sequence: u64) -> (res: Vec<u8>)
        ensures
            res@ == home_hub_list_bytes(master_pubkey@, strings_view(hubs@), issued_at, sequence),
    {
        let mut buf = tag_buffer(HOME_HUB_LIST_TAG);
        write_str(&mut buf, master_pubkey);
        write_str_vec(&mut buf, hubs);
        write_u64_le(&mut buf, issued_at);
        write_u64_le(&mut buf, sequence);
        buf
    }

    /// The signing bytes of this list.
    pub fn to_signing_bytes(&self) -> (res: Vec<u8>)
        ensures
            res@ == self.signing_bytes_spec(),
    {
        Self::signing_bytes(self.master_pubkey.as_str(), self.hubs.as_slice(), self.issued_at, self.sequence)
    }

    /// Checks the master's signature over the list.
    pub fn verify(&self) -> (res: Result<(), WireError>)
        ensures
            res == check_sig_spec(self.master_pubkey@, self.signing_bytes_spec(), self.signature@),
    {
        let bytes = self.to_signing_bytes();
        check_sig(self.master_pubkey.as_str(), bytes.as_slice(), self.signature.as_str())
    }
}

/// The signing bytes of a subkey certificate.
pub open spec fn subkey_cert_bytes(
    master_pubkey: Seq<char>,
    subkey_pubkey: Seq<char>,
    device_label: Seq<char>,
    issued_at: u64,
    not_after: Option<u64>,
    fallback_hubs: Seq<Seq<char>>,
) -> Seq<u8> {
    SUBKEY_CERT_TAG.spec_bytes() + str_field(master_pubkey) + str_field(subkey_pubkey) + str_field(
        device_label,
    ) + le64(issued_at) + opt_u64_field(not_after) + str_list_field(fallback_hubs)
}

/// Master-signed certificate binding a device subkey to the user's master key.
#[derive(Clone, Debug)]
pub struct SubkeyCert {
    pub master_pubkey: String,
    pub subkey_pubkey: String,
    pub device_label: String,
    pub issued_at: u64,
    pub not_after: Option<u64>,
    pub fallback_hubs: Vec<String>,
    pub signature: String,
}

impl SubkeyCert {
    /// The signing bytes of this certificate.
    pub open spec fn signing_bytes_spec(&self) -> Seq<u8> {
        subkey_cert_bytes(
            self.master_pubkey@,
            self.subkey_pubkey@,
            self.device_label@,
            self.issued_at,
            self.not_after,
            strings_view(self.fallback_hubs@),
        )
    }

    /// Encodes a subkey certificate for signing.
    pub fn signing_bytes(
        master_pubkey: &str,
        subkey_pubkey: &str,
        device_label: &str,
        issued_at: u64,
        not_after: Option<u64>,
        fallback_hubs: &[String],
    ) -> (res: Vec<u8>)
        ensures
            res@ == subkey_cert_bytes(
                master_pubkey@,
                subkey_pubkey@,
                device_label@,
                issued_at,
                not_after,
                strings_view(fallback_hubs@),
            ),
    {
        let mut buf = tag_buffer(SUBKEY_CERT_TAG);
        write_str(&mut buf, master_pubkey);
        write_str(&mut buf, subkey_pubkey);
        write_str(&mut buf, device_label);
        write_u64_le(&mut buf, issued_at);
        write_opt_u64(&mut buf, not_after);
        write_str_vec(&mut buf, fallback_hubs);
        buf
    }

    /// The signing bytes of this certificate.
    pub fn to_signing_bytes(&self) -> (res: Vec<u8>)
        ensures
            res@ == self.signing_bytes_spec(),
    {
        Self::signing_bytes(
            self.master_pubkey.as_str(),
            self.subkey_pubkey.as_str(),
            self.device_label.as_str(),
            self.issued_at,
            self.not_after,
            self.fallback_hubs.as_slice(),
        )
    }

    /// Checks the master's signature over the certificate.
    pub fn verify(&self) -> (res: Result<(), WireError>)
        ensures
            res == check_sig_spec(self.master_pubkey@, self.signing_bytes_spec(), self.signature@),
    {
        let bytes = self.to_signing_bytes();
        check_sig(self.master_pubkey.as_str(), bytes.as_slice(), self.signature.as_str())
    }
}

/// The signing bytes of a revocation entry.
pub open spec fn revocation_bytes(master_pubkey: Seq<char>, subkey_pubkey: Seq<char>, revoked_at: u64) -> Seq<u8> {
    REVOCATION_TAG.spec_bytes() + str_field(master_pubkey) + str_field(subkey_pubkey) + le64(revoked_at)
}

/// Master-signed revocation of a device subkey.
#[derive(Clone, Debug)]
pub struct RevocationEntry {
    pub master_pubkey: String,
    pub subkey_pubkey: String,
    pub revoked_at: u64,
    pub signature: String,
}

impl RevocationEntry {
    /// The signing bytes of this entry.
    pub open spec fn signing_bytes_spec(&self) -> Seq<u8> {
        revocation_bytes(self.master_pubkey@, self.subkey_pubkey@, self.revoked_at)
    }

    /// Encodes a revocation entry for signing.
    pub fn signing_bytes(master_pubkey: &str, subkey_pubkey: &str, revoked_at: u64) -> (res: Vec<u8>)
        ensures
            res@ == revocation_bytes(master_pubkey@, subkey_pubkey@, revoked_at),
    {
        let mut buf = tag_buffer(REVOCATION_TAG);
        write_str(&mut buf, master_pubkey);
        write_str(&mut buf, subkey_pubkey);
        write_u64_le(&mut buf, revoked_at);
        buf
    }

    /// The signing bytes of this entry.
    pub fn to_signing_bytes(&self) -> (res: Vec<u8>)
        ensures
            res@ == self.signing_bytes_spec(),
    {
        Self::signing_bytes(self.master_pubkey.as_str(), self.subkey_pubkey.as_str(), self.revoked_at)
    }

    /// Checks the master's signature over the entry.
    pub fn verify(&self) -> (res: Result<(), WireError>)
        ensures
            res == check_sig_spec(self.master_pubkey@, self.signing_bytes_spec(), self.signature@),
    {
        let bytes = self.to_signing_bytes();
        check_sig(self.master_pubkey.as_str(), bytes.as_slice(), self.signature.as_str())
    }
}

/// The signing bytes of a prefs blob: the tag, the master key, the blob
/// version, and the SHA-256 digest of the ciphertext.
pub open spec fn prefs_blob_bytes(master_pubkey: Seq<char>, blob_version: u64, ciphertext: Seq<u8>) -> Seq<u8> {
    PREFS_BLOB_TAG.spec_bytes() + str_field(master_pubkey) + le64(blob_version) + sha256_digest(ciphertext)
}

/// Encrypted prefs blob with a master-signed envelope. The hub stores the
/// ciphertext opaquely; the signature binds (master, version, blob hash)
/// so the hub can detect rollback and the client can prove authorship.
#[derive(Clone, Debug)]
pub struct SignedPrefsBlob {
    pub master_pubkey: String,
    pub blob_version: u64,
    /// Hex-encoded ciphertext. The hub never decrypts it.
    pub ciphertext_hex: String,
    pub signature: String,
}

impl SignedPrefsBlob {
    /// Encodes a prefs blob envelope for signing.
    pub fn signing_bytes(master_pubkey: &str, blob_version: u64, ciphertext: &[u8]) -> (res: Vec<u8>)
        ensures
            res@ == prefs_blob_bytes(master_pubkey@, blob_version, ciphertext@),
    {
        let digest = sha256(ciphertext);
        let mut buf = tag_buffer(PREFS_BLOB_TAG);
        write_str(&mut buf, master_pubkey);
        write_u64_le(&mut buf, blob_version);
        write_bytes(&mut buf, &digest);
        buf
    }

    /// The signing bytes of this envelope, or an error when the ciphertext
    /// is not hex text.
    pub fn to_signing_bytes(&self) -> (res: Result<Vec<u8>, WireError>)
        ensures
            match hex_decode_spec(encode_utf8(self.ciphertext_hex@)) {
                None => res == Err::<Vec<u8>, WireError>(WireError::InvalidCiphertextHex),
                Some(c) => res matches Ok(b) && b@ == prefs_blob_bytes(self.master_pubkey@, self.blob_version, c),
            },
    {
        let ciphertext = match hex_decode(self.ciphertext_hex.as_str().as_bytes()) {
            Some(c) => c,
            None => return Err(WireError::InvalidCiphertextHex),
        };
        Ok(Self::signing_bytes(self.master_pubkey.as_str(), self.blob_version, ciphertext.as_slice()))
    }

    /// Checks the master's signature over the envelope.
    pub fn verify(&self) -> (res: Result<(), WireError>)
        ensures
            match hex_decode_spec(encode_utf8(self.ciphertext_hex@)) {
                None => res == Err::<(), WireError>(WireError::InvalidCiphertextHex),
                Some(c) => res == check_sig_spec(
                    self.master_pubkey@,
                    prefs_blob_bytes(self.master_pubkey@, self.blob_version, c),
                    self.signature@,
                ),
            },
    {
        let bytes = match self.to_signing_bytes() {
            Ok(b) => b,
            Err(e) => return Err(e),
        };
        check_sig(self.master_pubkey.as_str(), bytes.as_slice(), self.signature.as_str())
    }
}

/// The signing bytes of a pairing offer.
pub open spec fn pairing_offer_bytes(
    master_pubkey: Seq<char>,
    home_hubs: Seq<Seq<char>>,
    pairing_token: Seq<char>,
    issued_at: u64,
    expires_at: u64,
) -> Seq<u8> {
    PAIRING_OFFER_TAG.spec_bytes() + str_field(master_pubkey) + str_list_field(home_hubs) + str_field(
        pairing_token,
    ) + le64(issued_at) + le64(expires_at)
}

/// Pairing offer created by the existing device and posted to every hub in
/// the user's home hub list. A home hub keeps it for a short while, keyed
/// by `pairing_token`.
#[derive(Clone, Debug)]
pub struct PairingOffer {
    pub master_pubkey: String,
    pub home_hubs: Vec<String>,
    pub pairing_token: String,
    pub issued_at: u64,
    pub expires_at: u64,
    pub signature: String,
}

impl PairingOffer {
    /// The signing bytes of this offer.
    pub open spec fn signing_bytes_spec(&self) -> Seq<u8> {
        pairing_offer_bytes(
            self.master_pubkey@,
            strings_view(self.home_hubs@),
            self.pairing_token@,
            self.issued_at,
            self.expires_at,
        )
    }

    /// Encodes a pairing offer for signing.
    pub fn signing_bytes(
        master_pubkey: &str,
        home_hubs: &[String],
        pairing_token: &str,
        issued_at: u64,
        expires_at: u64,
    ) -> (res: Vec<u8>)
        ensures
            res@ == pairing_offer_bytes(
                master_pubkey@,
                strings_view(home_hubs@),
                pairing_token@,
                issued_at,
                expires_at,
            ),
    {
        let mut buf = tag_buffer(PAIRING_OFFER_TAG);
        write_str(&mut buf, master_pubkey);
        write_str_vec(&mut buf, home_hubs);
        write_str(&mut buf, pairing_token);
        write_u64_le(&mut buf, issued_at);
        write_u64_le(&mut buf, expires_at);
        buf
    }

    /// The signing bytes of this offer.
    pub fn to_signing_bytes(&self) -> (res: Vec<u8>)
        ensures
            res@ == self.signing_bytes_spec(),
    {
        Self::signing_bytes(
            self.master_pubkey.as_str(),
            self.home_hubs.as_slice(),
            self.pairing_token.as_str(),
            self.issued_at,
            self.expires_at,
        )
    }

    /// Checks the master's signature over the offer.
    pub fn verify(&self) -> (res: Result<(), WireError>)
        ensures
            res == check_sig_spec(self.master_pubkey@, self.signing_bytes_spec(), self.signature@),
    {
        let bytes = self.to_signing_bytes();
        check_sig(self.master_pubkey.as_str(), bytes.as_slice(), self.signature.as_str())
    }
}

/// The signing bytes of a pairing claim.
pub open spec fn pairing_claim_bytes(pairing_token: Seq<char>, subkey_pubkey: Seq<char>, device_label: Seq<char>) -> Seq<u8> {
    PAIRING_CLAIM_TAG.spec_bytes() + str_field(pairing_token) + str_field(subkey_pubkey) + str_field(
        device_label,
    )
}

/// A new device's claim against an offer, signed by the new device's
/// subkey to prove possession of the private key.
#[derive(Clone, Debug)]
pub struct PairingClaim {
    pub pairing_token: String,
    pub subkey_pubkey: String,
    pub device_label: String,
    pub proof: String,
}

impl PairingClaim {
    /// The signing bytes of this claim.
    pub open spec fn signing_bytes_spec(&self) -> Seq<u8> {
        pairing_claim_bytes(self.pairing_token@, self.subkey_pubkey@, self.device_label@)
    }

    /// Encodes a pairing claim for signing.
    pub fn signing_bytes(pairing_token: &str, subkey_pubkey: &str, device_label: &str) -> (res: Vec<u8>)
        ensures
            res@ == pairing_claim_bytes(pairing_token@, subkey_pubkey@, device_label@),
    {
        let mut buf = tag_buffer(PAIRING_CLAIM_TAG);
        write_str(&mut buf, pairing_token);
        write_str(&mut buf, subkey_pubkey);
        write_str(&mut buf, device_label);
        buf
    }

    /// The signing bytes of this claim.
    pub fn to_signing_bytes(&self) -> (res: Vec<u8>)
        ensures
            res@ == self.signing_bytes_spec(),
    {
        Self::signing_bytes(self.pairing_token.as_str(), self.subkey_pubkey.as_str(), self.device_label.as_str())
    }

    /// Checks the subkey's proof over the claim.
    pub fn verify(&self) -> (res: Result<(), WireError>)
        ensures
            res == check_sig_spec(self.subkey_pubkey@, self.signing_bytes_spec(), self.proof@),
    {
        let bytes = self.to_signing_bytes();
        check_sig(self.subkey_pubkey.as_str(), bytes.as_slice(), self.proof.as_str())
    }
}

/// The existing device finalizes pairing by attaching the master-signed
/// certificate and the prefs-blob key wrapped for the new device's key.
#[derive(Clone, Debug)]
pub struct PairingComplete {
    pub pairing_token: String,
    pub cert: SubkeyCert,
    pub wrapped_blob_key_hex: String,
}

/// The state of a pairing, as the status endpoint reports it. Both sides
/// poll it to advance the protocol.
#[derive(Clone, Debug)]
pub enum PairingStatus {
    Pending,
    Claimed { subkey_pubkey: String, device_label: String },
    Complete { cert: SubkeyCert, wrapped_blob_key_hex: String },
    Expired,
}

} // verus!
