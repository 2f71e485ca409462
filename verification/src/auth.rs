//! Authentication decisions of the hub: the challenge/response handshake,
//! mapping a device to its canonical user across paired devices, the
//! admission gates for new users, and bearer-token sessions.

use vstd::prelude::*;
use vstd::string::{StrSliceExecFns, StringExecFns, StringSliceAdditionalSpecFns};
use vstd::utf8::encode_utf8;

use crate::crypto::random_bytes_32;
use crate::hexcodec::{hex_decode, hex_decode_spec, hex_encode, hex_encode_spec, lemma_hex_roundtrip};
use crate::identity::{verify_signature, verify_signature_spec, Identity};
use crate::text::{has_prefix, parse_u32, parse_u32_spec, starts_with, str_eq};
use crate::wire::{check_sig_spec, SubkeyCert};

verus! {

/// Why a request was refused by an authentication rule.
#[derive(Clone, Copy, Debug, PartialEq, Eq, Structural)]
pub enum AuthRejection {
    /// The presented subkey certificate does not verify.
    InvalidCert,
    /// The certificate certifies another key than the one authenticating.
    CertSubkeyMismatch,
    /// No challenge was issued for this key.
    NoPendingChallenge,
    /// The challenge is older than its lifetime.
    ChallengeExpired,
    /// The echoed challenge is not hex text.
    InvalidChallengeHex,
    /// The echoed challenge differs from the one issued.
    ChallengeMismatch,
    /// The signature is not hex text.
    InvalidSignatureHex,
    /// The signature over the challenge does not verify.
    InvalidSignature,
    /// The canonical user is banned.
    Banned,
    /// The claimed proof-of-work level is below the hub's minimum.
    SecurityLevelTooLow,
    /// The proof of work does not check out.
    InvalidSecurityProof,
    /// A new user needs an invite code on this hub.
    InviteRequired,
    /// No `Authorization` header.
    MissingAuthorization,
    /// The header is not `Bearer <token>`.
    InvalidAuthorizationFormat,
    /// The token names no session.
    InvalidToken,
    /// The account waits for admin approval and the path is not open to it.
    PendingApproval,
}

impl AuthRejection {
    /// The HTTP status of the rejection.
    pub open spec fn status_spec(self) -> u16 {
        match self {
            AuthRejection::InvalidChallengeHex | AuthRejection::InvalidSignatureHex => 400,
            AuthRejection::Banned | AuthRejection::SecurityLevelTooLow
            | AuthRejection::InvalidSecurityProof | AuthRejection::InviteRequired
            | AuthRejection::PendingApproval => 403,
            _ => 401,
        }
    }

    /// The HTTP status of the rejection.
    pub fn status(&self) -> (res: u16)
        ensures
            res == self.status_spec(),
    {
        match self {
            AuthRejection::InvalidChallengeHex | AuthRejection::InvalidSignatureHex => 400,
            AuthRejection::Banned | AuthRejection::SecurityLevelTooLow
            | AuthRejection::InvalidSecurityProof | AuthRejection::InviteRequired
            | AuthRejection::PendingApproval => 403,
            _ => 401,
        }
    }
}

/// Approval state of a user row.
#[derive(Clone, Copy, Debug, PartialEq, Eq, Structural)]
pub enum ApprovalStatus {
    Approved,
    Pending,
}

impl ApprovalStatus {
    /// The stored text of the status.
    pub fn as_str(&self) -> (res: &'static str)
        ensures
            res@ == (match self {
                ApprovalStatus::Approved => "approved"@,
                ApprovalStatus::Pending => "pending"@,
            }),
    {
        match self {
            ApprovalStatus::Approved => "approved",
            ApprovalStatus::Pending => "pending",
        }
    }
}

/// An authenticated request's user.
#[derive(Clone, Debug)]
pub struct AuthUser {
    pub public_key: String,
}

/// Request for a login challenge.
#[derive(Clone, Debug)]
pub struct ChallengeRequest {
    pub public_key: String,
}

/// The challenge to sign, as hex text.
#[derive(Clone, Debug)]
pub struct ChallengeResponse {
    pub challenge: String,
}

/// The signed challenge. With a subkey certificate, `public_key` is the
/// device's subkey and the certificate links it to a master key.
#[derive(Clone, Debug)]
pub struct VerifyRequest {
    pub public_key: String,
    pub challenge: String,
    pub signature: String,
    pub invite_code: Option<String>,
    pub security_nonce: Option<u64>,
    pub security_level: Option<u32>,
    pub subkey_cert: Option<SubkeyCert>,
}

/// The session token of a successful login.
#[derive(Clone, Debug)]
pub struct VerifyResponse {
    pub token: String,
}

/// The canonical user for an authenticating key and optional certificate.
/// `user_with_master` is the user row already recorded under the
/// certificate's master key, `legacy_user` the row of the authenticating
/// key when it has no master recorded.
pub open spec fn canonical_identity_spec(
    auth_pubkey: Seq<char>,
    cert: Option<SubkeyCert>,
    user_with_master: Option<Seq<char>>,
    legacy_user: Option<Seq<char>>,
) -> Result<(Seq<char>, Option<Seq<char>>), AuthRejection> {
    match cert {
        None => Ok((auth_pubkey, None)),
        Some(c) => if check_sig_spec(c.master_pubkey@, c.signing_bytes_spec(), c.signature@) is Err {
            Err(AuthRejection::InvalidCert)
        } else if c.subkey_pubkey@ != auth_pubkey {
            Err(AuthRejection::CertSubkeyMismatch)
        } else {
            match user_with_master {
                Some(u) => Ok((u, Some(c.master_pubkey@))),
                None => match legacy_user {
                    Some(l) => Ok((l, Some(c.master_pubkey@))),
                    None => Ok((c.master_pubkey@, Some(c.master_pubkey@))),
                },
            }
        },
    }
}

/// Maps an authenticating (subkey, optional certificate) pair to a stable
/// canonical user, returning (canonical key, master key).
///
/// - No certificate: single-key login; the key is canonical, no master.
/// - A user already recorded under the certificate's master: that user.
/// - The key is a single-key user without master: it stays canonical (so
///   roles and memberships carry over) and the master gets recorded.
/// - Otherwise a new paired device: the master key is canonical.
pub fn resolve_canonical_identity(
    auth_pubkey: &str,
    cert: Option<&SubkeyCert>,
    user_with_master: Option<String>,
    legacy_user: Option<String>,
) -> (res: Result<(String, Option<String>), AuthRejection>)
    ensures
        match (res, canonical_identity_spec(
            auth_pubkey@,
            match cert { Some(c) => Some(*c), None => None },
            match user_with_master { Some(u) => Some(u@), None => None },
            match legacy_user { Some(l) => Some(l@), None => None },
        )) {
            (Ok((c, m)), Ok((sc, sm))) => c@ == sc && match (m, sm) {
                (Some(x), Some(y)) => x@ == y,
                (None, None) => true,
                _ => false,
            },
            (Err(e), Err(se)) => e == se,
            _ => false,
        },
{
    let c = match cert {
        None => return Ok((String::from_str(auth_pubkey), None)),
        Some(c) => c,
    };
    if c.verify().is_err() {
        return Err(AuthRejection::InvalidCert);
    }
    if !str_eq(c.subkey_pubkey.as_str(), auth_pubkey) {
        return Err(AuthRejection::CertSubkeyMismatch);
    }
    let master = c.master_pubkey.clone();
    match user_with_master {
        Some(u) => Ok((u, Some(master))),
        None => match legacy_user {
            Some(l) => Ok((l, Some(master))),
            None => Ok((master.clone(), Some(master))),
        },
    }
}

/// The outcome of checking an echoed challenge against the pending one.
pub open spec fn challenge_check_spec(pending: Option<Seq<u8>>, expired: bool, challenge_hex: Seq<char>) -> Result<Seq<u8>, AuthRejection> {
    match pending {
        None => Err(AuthRejection::NoPendingChallenge),
        Some(p) => if expired {
            Err(AuthRejection::ChallengeExpired)
        } else {
            match hex_decode_spec(encode_utf8(challenge_hex)) {
                None => Err(AuthRejection::InvalidChallengeHex),
                Some(b) => if b != p {
                    Err(AuthRejection::ChallengeMismatch)
                } else {
                    Ok(b)
                },
            }
        },
    }
}

fn bytes_eq(a: &Vec<u8>, b: &Vec<u8>) -> (res: bool)
    ensures
        res == (a@ == b@),
{
    if a.len() != b.len() {
        return false;
    }
    let mut i: usize = 0;
    while i < a.len()
        invariant
            a@.len() == b@.len(),
            0 <= i <= a@.len(),
            forall|j: int| 0 <= j < i ==> a@[j] == b@[j],
        decreases a@.len() - i,
    {
        if a[i] != b[i] {
            return false;
        }
        i = i + 1;
    }
    assert(a@ =~= b@);
    true
}

/// Checks the challenge echoed by the client: it must have been issued to
/// this key (`pending`, already taken out of the pending set), be unexpired,
/// be hex text, and equal the issued bytes.
pub fn check_challenge(pending: Option<Vec<u8>>, expired: bool, challenge_hex: &str) -> (res: Result<Vec<u8>, AuthRejection>)
    ensures
        match (res, challenge_check_spec(match pending { Some(p) => Some(p@), None => None }, expired, challenge_hex@)) {
            (Ok(b), Ok(sb)) => b@ == sb,
            (Err(e), Err(se)) => e == se,
            _ => false,
        },
{
    let p = match pending {
        None => return Err(AuthRejection::NoPendingChallenge),
        Some(p) => p,
    };
    if expired {
        return Err(AuthRejection::ChallengeExpired);
    }
    let bytes = match hex_decode(challenge_hex.as_bytes()) {
        Some(b) => b,
        None => return Err(AuthRejection::InvalidChallengeHex),
    };
    if !bytes_eq(&bytes, &p) {
        return Err(AuthRejection::ChallengeMismatch);
    }
    Ok(bytes)
}

/// The outcome of checking a client's hex signature over the challenge
/// bytes against its hex public key.
pub open spec fn signature_check_spec(public_key: Seq<char>, challenge: Seq<u8>, signature_hex: Seq<char>) -> Result<(), AuthRejection> {
    match hex_decode_spec(encode_utf8(signature_hex)) {
        None => Err(AuthRejection::InvalidSignatureHex),
        Some(sig) => if verify_signature_spec(encode_utf8(public_key), challenge, sig) is Ok {
            Ok(())
        } else {
            Err(AuthRejection::InvalidSignature)
        },
    }
}

/// Checks the client's hex signature over the challenge bytes.
pub fn check_challenge_signature(public_key: &str, challenge: &[u8], signature_hex: &str) -> (res: Result<(), AuthRejection>)
    ensures
        res == signature_check_spec(public_key@, challenge@, signature_hex@),
{
    let sig = match hex_decode(signature_hex.as_bytes()) {
        Some(s) => s,
        None => return Err(AuthRejection::InvalidSignatureHex),
    };
    match verify_signature(public_key, challenge, sig.as_slice()) {
        Ok(()) => Ok(()),
        Err(_) => Err(AuthRejection::InvalidSignature),
    }
}

/// The hub's minimum proof-of-work level from its stored setting: the
/// decimal value, 0 when absent or not a `u32`.
pub fn min_security_level_setting(value: Option<&str>) -> (res: u32)
    ensures
        res == match value {
            Some(v) => match parse_u32_spec(v@) {
                Some(n) => n,
                None => 0,
            },
            None => 0,
        },
{
    match value {
        Some(v) => match parse_u32(v) {
            Some(n) => n,
            None => 0,
        },
        None => 0,
    }
}

/// A boolean hub setting: on exactly when stored as `true`.
pub fn setting_is_true(value: Option<&str>) -> (res: bool)
    ensures
        res == (value matches Some(v) && v@ == "true"@),
{
    match value {
        Some(v) => str_eq(v, "true"),
        None => false,
    }
}

/// The issued challenge, echoed back in time, passes the challenge check
/// and yields the issued bytes; an expired or unissued one never does.
pub proof fn law_echoed_challenge_is_accepted(issued: Seq<u8>, echo: Seq<char>)
    ensures
        challenge_check_spec(Some(issued), false, hex_encode_spec(issued)) == Ok::<Seq<u8>, AuthRejection>(issued),
        challenge_check_spec(Some(issued), true, echo) == Err::<Seq<u8>, AuthRejection>(AuthRejection::ChallengeExpired),
        challenge_check_spec(None, false, echo) == Err::<Seq<u8>, AuthRejection>(AuthRejection::NoPendingChallenge),
{
    lemma_hex_roundtrip(issued);
}

/// A challenge issued to a key and not yet answered, with the time after
/// which it is refused.
#[derive(Clone, Debug)]
pub struct PendingChallenge {
    pub public_key: String,
    pub challenge: Vec<u8>,
    pub expires_at: u64,
}

/// The pending challenges of a list, by key: a later entry for a key
/// stands over an earlier one.
pub open spec fn pending_entry_map(s: Seq<PendingChallenge>) -> Map<Seq<char>, (Seq<u8>, u64)>
    decreases s.len(),
{
    if s.len() == 0 {
        Map::empty()
    } else {
        pending_entry_map(s.drop_last()).insert(s.last().public_key@, (s.last().challenge@, s.last().expires_at))
    }
}

proof fn lemma_pending_entry_absent(s: Seq<PendingChallenge>, k: Seq<char>)
    requires
        forall|j: int| 0 <= j < s.len() ==> (#[trigger] s[j]).public_key@ != k,
    ensures
        !pending_entry_map(s).dom().contains(k),
    decreases s.len(),
{
    if s.len() > 0 {
        assert forall|j: int| 0 <= j < s.drop_last().len() implies (#[trigger] s.drop_last()[j]).public_key@ != k by {
            assert(s.drop_last()[j] == s[j]);
        }
        lemma_pending_entry_absent(s.drop_last(), k);
    }
}

proof fn lemma_pending_entry_last(s: Seq<PendingChallenge>, k: Seq<char>, idx: int)
    requires
        0 <= idx < s.len(),
        s[idx].public_key@ == k,
        forall|j: int| idx < j < s.len() ==> (#[trigger] s[j]).public_key@ != k,
    ensures
        pending_entry_map(s).dom().contains(k),
        pending_entry_map(s)[k] == (s[idx].challenge@, s[idx].expires_at),
    decreases s.len(),
{
    if idx < s.len() - 1 {
        assert forall|j: int| idx < j < s.drop_last().len() implies (#[trigger] s.drop_last()[j]).public_key@ != k by {
            assert(s.drop_last()[j] == s[j]);
        }
        lemma_pending_entry_last(s.drop_last(), k, idx);
    }
}

fn copy_bytes(v: &Vec<u8>) -> (res: Vec<u8>)
    ensures
        res@ == v@,
{
    let mut out: Vec<u8> = Vec::new();
    let mut i: usize = 0;
    while i < v.len()
        invariant
            0 <= i <= v@.len(),
            out@ == v@.take(i as int),
        decreases v@.len() - i,
    {
        out.push(v[i]);
        proof {
            assert(v@.take(i as int + 1) =~= v@.take(i as int).push(v@[i as int]));
        }
        i = i + 1;
    }
    proof {
        assert(v@.take(v@.len() as int) =~= v@);
    }
    out
}

/// The challenges the hub has issued and not yet seen answered, by key.
/// A key holds at most one: issuing again replaces the earlier one.
pub struct PendingChallenges {
    entries: Vec<PendingChallenge>,
}

impl View for PendingChallenges {
    type V = Map<Seq<char>, (Seq<u8>, u64)>;

    closed spec fn view(&self) -> Map<Seq<char>, (Seq<u8>, u64)> {
        pending_entry_map(self.entries@)
    }
}

/// The challenge bytes pending for a key.
pub open spec fn pending_bytes(m: Map<Seq<char>, (Seq<u8>, u64)>, public_key: Seq<char>) -> Option<Seq<u8>> {
    if m.dom().contains(public_key) {
        Some(m[public_key].0)
    } else {
        None
    }
}

/// Whether the challenge pending for a key is past its time at `now`.
pub open spec fn pending_expired(m: Map<Seq<char>, (Seq<u8>, u64)>, public_key: Seq<char>, now: u64) -> bool {
    m.dom().contains(public_key) && now > m[public_key].1
}

impl PendingChallenges {
    /// No challenge pending.
    pub fn new() -> (res: PendingChallenges)
        ensures
            res@ == Map::<Seq<char>, (Seq<u8>, u64)>::empty(),
    {
        PendingChallenges { entries: Vec::new() }
    }

    fn without_key(entries: &Vec<PendingChallenge>, public_key: &str) -> (res: Vec<PendingChallenge>)
        ensures
            pending_entry_map(res@) == pending_entry_map(entries@).remove(public_key@),
    {
        let ghost k = public_key@;
        let mut out: Vec<PendingChallenge> = Vec::new();
        let mut i: usize = 0;
        while i < entries.len()
            invariant
                0 <= i <= entries@.len(),
                k == public_key@,
                pending_entry_map(out@) == pending_entry_map(entries@.take(i as int)).remove(k),
            decreases entries@.len() - i,
        {
            let ghost before = pending_entry_map(entries@.take(i as int));
            proof {
                assert(entries@.take(i as int + 1).drop_last() =~= entries@.take(i as int));
                assert(entries@.take(i as int + 1).last() == entries@[i as int]);
            }
            let e = &entries[i];
            if !str_eq(e.public_key.as_str(), public_key) {
                let ghost old_out = out@;
                out.push(PendingChallenge {
                    public_key: e.public_key.clone(),
                    challenge: copy_bytes(&e.challenge),
                    expires_at: e.expires_at,
                });
                proof {
                    assert(out@.drop_last() =~= old_out);
                    assert(pending_entry_map(out@) =~= pending_entry_map(entries@.take(i as int + 1)).remove(k));
                }
            } else {
                proof {
                    assert(pending_entry_map(out@) =~= pending_entry_map(entries@.take(i as int + 1)).remove(k));
                }
            }
            i = i + 1;
        }
        proof {
            assert(entries@.take(entries@.len() as int) =~= entries@);
        }
        out
    }

    /// Records a challenge issued to a key, replacing one issued earlier.
    pub fn insert(&mut self, public_key: String, challenge: Vec<u8>, expires_at: u64)
        ensures
            final(self)@ == old(self)@.insert(public_key@, (challenge@, expires_at)),
    {
        let mut rest = Self::without_key(&self.entries, public_key.as_str());
        let ghost before = rest@;
        let ghost k = public_key@;
        let ghost v = (challenge@, expires_at);
        rest.push(PendingChallenge { public_key, challenge, expires_at });
        proof {
            assert(rest@.drop_last() =~= before);
            assert(pending_entry_map(rest@) =~= pending_entry_map(self.entries@).insert(k, v));
        }
        self.entries = rest;
    }

    /// Takes the challenge pending for a key out: it is no longer pending,
    /// whatever is made of it.
    pub fn take(&mut self, public_key: &str) -> (res: Option<(Vec<u8>, u64)>)
        ensures
            final(self)@ == old(self)@.remove(public_key@),
            match res {
                Some((c, t)) => old(self)@.dom().contains(public_key@) && old(self)@[public_key@] == (c@, t),
                None => !old(self)@.dom().contains(public_key@),
            },
    {
        let mut found: Option<(Vec<u8>, u64)> = None;
        let mut i: usize = self.entries.len();
        while i > 0
            invariant_except_break
                0 <= i <= self.entries@.len(),
                found is None,
                forall|j: int| i <= j < self.entries@.len() ==> (#[trigger] self.entries@[j]).public_key@ != public_key@,
            ensures
                match found {
                    Some((c, t)) => pending_entry_map(self.entries@).dom().contains(public_key@)
                        && pending_entry_map(self.entries@)[public_key@] == (c@, t),
                    None => forall|j: int| 0 <= j < self.entries@.len() ==> (#[trigger] self.entries@[j]).public_key@ != public_key@,
                },
            decreases i,
        {
            let e = &self.entries[i - 1];
            if str_eq(e.public_key.as_str(), public_key) {
                proof {
                    lemma_pending_entry_last(self.entries@, public_key@, i - 1);
                }
                found = Some((copy_bytes(&e.challenge), e.expires_at));
                break;
            }
            i = i - 1;
        }
        proof {
            if found is None {
                lemma_pending_entry_absent(self.entries@, public_key@);
            }
        }
        let rest = Self::without_key(&self.entries, public_key);
        self.entries = rest;
        found
    }
}

/// The first checks of a login: the challenge pending for the key is taken
/// out, so that it is never answered twice, then checked as
/// `check_challenge` does, expired once `now` is past its time.
pub fn take_and_check_challenge(pending: &mut PendingChallenges, public_key: &str, now: u64, challenge_hex: &str) -> (res: Result<Vec<u8>, AuthRejection>)
    ensures
        final(pending)@ == old(pending)@.remove(public_key@),
        match (res, challenge_check_spec(pending_bytes(old(pending)@, public_key@), pending_expired(old(pending)@, public_key@, now), challenge_hex@)) {
            (Ok(b), Ok(sb)) => b@ == sb,
            (Err(e), Err(se)) => e == se,
            _ => false,
        },
{
    let taken = pending.take(public_key);
    let (bytes, expired) = match taken {
        Some((c, t)) => (Some(c), now > t),
        None => (None, false),
    };
    check_challenge(bytes, expired, challenge_hex)
}

/// A challenge answers one login attempt only: once an attempt has taken
/// it, whatever its outcome, a second attempt for the key, with no new
/// challenge issued, is refused for want of one.
pub proof fn law_challenge_single_use(m: Map<Seq<char>, (Seq<u8>, u64)>, public_key: Seq<char>, now: u64, challenge_hex: Seq<char>)
    ensures
        challenge_check_spec(
            pending_bytes(m.remove(public_key), public_key),
            pending_expired(m.remove(public_key), public_key, now),
            challenge_hex,
        ) == Err::<Seq<u8>, AuthRejection>(AuthRejection::NoPendingChallenge),
{
}

/// A challenge just issued to a key is the one pending for it, and
/// echoing it back in time passes the check.
pub proof fn law_issued_challenge_answers(m: Map<Seq<char>, (Seq<u8>, u64)>, public_key: Seq<char>, challenge: Seq<u8>, expires_at: u64, now: u64)
    requires
        now <= expires_at,
    ensures
        challenge_check_spec(
            pending_bytes(m.insert(public_key, (challenge, expires_at)), public_key),
            pending_expired(m.insert(public_key, (challenge, expires_at)), public_key, now),
            hex_encode_spec(challenge),
        ) == Ok::<Seq<u8>, AuthRejection>(challenge),
{
    lemma_hex_roundtrip(challenge);
}

/// How long an issued challenge may be answered, in seconds.
pub const CHALLENGE_TTL_SECS: u64 = 60;

/// A fresh login challenge: 32 random bytes to keep as pending, and their
/// hex text for the client.
pub fn issue_challenge() -> (res: (Vec<u8>, ChallengeResponse))
    ensures
        res.0@.len() == 32,
        res.1.challenge@ == hex_encode_spec(res.0@),
{
    let bytes = random_bytes_32();
    let challenge = hex_encode(&bytes);
    let mut v: Vec<u8> = Vec::new();
    let mut i: usize = 0;
    while i < 32
        invariant
            0 <= i <= 32,
            v@ == bytes@.take(i as int),
        decreases 32 - i,
    {
        v.push(bytes[i]);
        proof {
            assert(bytes@.take(i as int + 1) =~= bytes@.take(i as int).push(bytes@[i as int]));
        }
        i = i + 1;
    }
    proof {
        assert(bytes@.take(32) =~= bytes@);
    }
    (v, ChallengeResponse { challenge })
}

/// A fresh session token: the hex text of 32 random bytes.
pub fn new_session_token() -> (res: String)
    ensures
        exists|b: Seq<u8>| b.len() == 32 && res@ == hex_encode_spec(b),
{
    let bytes = random_bytes_32();
    hex_encode(&bytes)
}

/// The client's answer to a challenge: the hex text of its signature over
/// the challenge bytes, or `None` when the challenge is not hex text. The
/// hub's signature check accepts every answer.
pub fn answer_challenge(identity: &Identity, challenge_hex: &str) -> (res: Option<String>)
    ensures
        res is None <==> hex_decode_spec(encode_utf8(challenge_hex@)) is None,
        res matches Some(s) ==> signature_check_spec(
            identity.public_key_hex_spec(),
            hex_decode_spec(encode_utf8(challenge_hex@))->0,
            s@,
        ) == Ok::<(), AuthRejection>(()),
{
    let bytes = match hex_decode(challenge_hex.as_bytes()) {
        Some(b) => b,
        None => return None,
    };
    let sig = identity.sign(bytes.as_slice());
    let raw = sig.to_bytes();
    let out = hex_encode(&raw);
    proof {
        lemma_hex_roundtrip(raw@);
    }
    Some(out)
}

/// The outcome of the proof-of-work gate.
pub open spec fn security_gate_spec(min_level: u32, claimed_level: Option<u32>, proof_valid: bool) -> Result<(), AuthRejection> {
    if min_level == 0 {
        Ok(())
    } else if (match claimed_level { Some(l) => l, None => 0 }) < min_level {
        Err(AuthRejection::SecurityLevelTooLow)
    } else if !proof_valid {
        Err(AuthRejection::InvalidSecurityProof)
    } else {
        Ok(())
    }
}

/// The proof-of-work gate: with a positive minimum, the claimed level
/// (0 when absent) must reach it and its proof must check out.
pub fn security_gate(min_level: u32, claimed_level: Option<u32>, proof_valid: bool) -> (res: Result<(), AuthRejection>)
    ensures
        res == security_gate_spec(min_level, claimed_level, proof_valid),
{
    if min_level > 0 {
        let claimed = match claimed_level {
            Some(l) => l,
            None => 0,
        };
        if claimed < min_level {
            return Err(AuthRejection::SecurityLevelTooLow);
        }
        if !proof_valid {
            return Err(AuthRejection::InvalidSecurityProof);
        }
    }
    Ok(())
}

/// The approval state a new user row starts in: pending only when the hub
/// requires approval and the user is not the first one.
pub fn initial_approval_status(require_approval: bool, existing_users: i64) -> (res: ApprovalStatus)
    ensures
        res == if require_approval && existing_users > 0 {
            ApprovalStatus::Pending
        } else {
            ApprovalStatus::Approved
        },
{
    if require_approval && existing_users > 0 {
        ApprovalStatus::Pending
    } else {
        ApprovalStatus::Approved
    }
}

/// The invite gate for a login: a user with no roles yet on an invite-only
/// hub must present an invite code, which is then to be redeemed.
pub fn invite_gate(role_count: i64, invite_only: bool, invite_code: Option<&str>) -> (res: Result<Option<String>, AuthRejection>)
    ensures
        role_count == 0 && invite_only && invite_code is None ==> res == Err::<Option<String>, AuthRejection>(AuthRejection::InviteRequired),
        role_count == 0 && invite_only && invite_code is Some ==> (res matches Ok(Some(c)) && c@ == invite_code->0@),
        !(role_count == 0 && invite_only) ==> res matches Ok(None),
{
    if role_count == 0 && invite_only {
        match invite_code {
            Some(c) => Ok(Some(String::from_str(c))),
            None => Err(AuthRejection::InviteRequired),
        }
    } else {
        Ok(None)
    }
}

/// The admission gates of a login, once the challenge and its signature
/// have checked out, in the order the hub applies them: a banned user is
/// refused first, then the proof-of-work gate, then the invite gate of a
/// user new to the hub (whose code, when one is given, is to be redeemed).
/// Whether the user starts pending approval is decided between the last
/// two and refuses no one.
pub fn admission_gates(
    banned: bool,
    min_level: u32,
    claimed_level: Option<u32>,
    proof_valid: bool,
    role_count: i64,
    invite_only: bool,
    invite_code: Option<&str>,
) -> (res: Result<Option<String>, AuthRejection>)
    ensures
        banned ==> res == Err::<Option<String>, AuthRejection>(AuthRejection::Banned),
        !banned && security_gate_spec(min_level, claimed_level, proof_valid) is Err ==>
            res == Err::<Option<String>, AuthRejection>(security_gate_spec(min_level, claimed_level, proof_valid)->Err_0),
        !banned && security_gate_spec(min_level, claimed_level, proof_valid) is Ok ==> {
            &&& role_count == 0 && invite_only && invite_code is None ==> res == Err::<Option<String>, AuthRejection>(AuthRejection::InviteRequired)
            &&& role_count == 0 && invite_only && invite_code is Some ==> (res matches Ok(Some(c)) && c@ == invite_code->0@)
            &&& !(role_count == 0 && invite_only) ==> res matches Ok(None)
        },
{
    if banned {
        return Err(AuthRejection::Banned);
    }
    match security_gate(min_level, claimed_level, proof_valid) {
        Err(e) => return Err(e),
        Ok(()) => {},
    }
    invite_gate(role_count, invite_only, invite_code)
}

/// The built-in roles granted at login.
#[derive(Clone, Copy, Debug, PartialEq, Eq, Structural)]
pub struct RoleGrant {
    pub owner: bool,
    pub everyone: bool,
}

/// Roles for a user at login: a user without roles gets `@everyone`, and
/// the Owner role too when nobody holds it yet (the hub's first user).
pub fn initial_roles(role_count: i64, owner_count: i64) -> (res: RoleGrant)
    ensures
        res.everyone == (role_count == 0),
        res.owner == (role_count == 0 && owner_count == 0),
{
    RoleGrant { owner: role_count == 0 && owner_count == 0, everyone: role_count == 0 }
}

/// What the hub has looked up for a login, besides the request: the user
/// recorded under the certificate's master key and the key's own row
/// without a master (both as `resolve_canonical_identity` takes them), the
/// banned users, its minimum proof-of-work level and whether the claimed
/// proof checks out, its approval and invite settings, how many users it
/// has, the users holding a role, and whether someone holds the Owner role.
#[derive(Clone, Debug)]
pub struct LoginLookups {
    pub user_with_master: Option<String>,
    pub legacy_user: Option<String>,
    pub banned_users: Vec<String>,
    pub min_security_level: u32,
    pub security_proof_valid: bool,
    pub require_approval: bool,
    pub existing_users: i64,
    pub users_with_roles: Vec<String>,
    pub owner_exists: bool,
    pub invite_only: bool,
}

/// What a successful login records: the canonical user and master key,
/// the approval state of a new user row, the invite code to redeem, and
/// the built-in roles to grant.
#[derive(Clone, Debug)]
pub struct LoginPlan {
    pub canonical_key: String,
    pub master_key: Option<String>,
    pub approval: ApprovalStatus,
    pub invite_to_redeem: Option<String>,
    pub roles: RoleGrant,
}

/// A login plan by its texts.
pub struct LoginPlanView {
    pub canonical_key: Seq<char>,
    pub master_key: Option<Seq<char>>,
    pub approval: ApprovalStatus,
    pub invite_to_redeem: Option<Seq<char>>,
    pub roles: RoleGrant,
}

/// Whether a list of users names `key`.
pub open spec fn key_listed(users: Seq<String>, key: Seq<char>) -> bool {
    exists|i: int| 0 <= i < users.len() && (#[trigger] users[i])@ == key
}

fn lists_key(users: &Vec<String>, key: &str) -> (res: bool)
    ensures
        res == key_listed(users@, key@),
{
    let mut i: usize = 0;
    while i < users.len()
        invariant
            0 <= i <= users@.len(),
            forall|j: int| 0 <= j < i ==> (#[trigger] users@[j])@ != key@,
        decreases users@.len() - i,
    {
        if str_eq(users[i].as_str(), key) {
            assert(users@[i as int]@ == key@);
            return true;
        }
        i = i + 1;
    }
    false
}

/// A text option by its characters.
pub open spec fn opt_text(o: Option<String>) -> Option<Seq<char>> {
    match o {
        Some(t) => Some(t@),
        None => None,
    }
}

/// The outcome of a login, step by step in the hub's order: the pending
/// challenge of the key, then the signature over it, then the canonical
/// user, then the ban, proof-of-work and invite gates for that user; and
/// on success what the hub records.
pub open spec fn login_spec(
    pending: Map<Seq<char>, (Seq<u8>, u64)>,
    req: VerifyRequest,
    now: u64,
    lk: LoginLookups,
) -> Result<LoginPlanView, AuthRejection> {
    match challenge_check_spec(pending_bytes(pending, req.public_key@), pending_expired(pending, req.public_key@, now), req.challenge@) {
        Err(e) => Err(e),
        Ok(bytes) => match signature_check_spec(req.public_key@, bytes, req.signature@) {
            Err(e) => Err(e),
            Ok(()) => match canonical_identity_spec(req.public_key@, req.subkey_cert, opt_text(lk.user_with_master), opt_text(lk.legacy_user)) {
                Err(e) => Err(e),
                Ok((canonical, master)) => {
                    let new_user = !key_listed(lk.users_with_roles@, canonical);
                    if key_listed(lk.banned_users@, canonical) {
                        Err(AuthRejection::Banned)
                    } else if security_gate_spec(lk.min_security_level, req.security_level, lk.security_proof_valid) is Err {
                        Err(security_gate_spec(lk.min_security_level, req.security_level, lk.security_proof_valid)->Err_0)
                    } else if new_user && lk.invite_only && req.invite_code is None {
                        Err(AuthRejection::InviteRequired)
                    } else {
                        Ok(LoginPlanView {
                            canonical_key: canonical,
                            master_key: master,
                            approval: if lk.require_approval && lk.existing_users > 0 {
                                ApprovalStatus::Pending
                            } else {
                                ApprovalStatus::Approved
                            },
                            invite_to_redeem: if new_user && lk.invite_only { opt_text(req.invite_code) } else { None },
                            roles: RoleGrant { owner: new_user && !lk.owner_exists, everyone: new_user },
                        })
                    }
                },
            },
        },
    }
}

/// Whether a plan has the texts of its view.
pub open spec fn plan_is(p: LoginPlan, v: LoginPlanView) -> bool {
    &&& p.canonical_key@ == v.canonical_key
    &&& opt_text(p.master_key) == v.master_key
    &&& p.approval == v.approval
    &&& opt_text(p.invite_to_redeem) == v.invite_to_redeem
    &&& p.roles == v.roles
}

/// A login: takes the key's pending challenge out (it never answers a
/// second attempt), checks it and the signature over it, maps the key to
/// its canonical user, and applies the admission gates to that user, in
/// the hub's order. The session token of a successful login is drawn
/// apart (`new_session_token`).
pub fn verify(pending: &mut PendingChallenges, req: &VerifyRequest, now: u64, lk: &LoginLookups) -> (res: Result<LoginPlan, AuthRejection>)
    ensures
        final(pending)@ == old(pending)@.remove(req.public_key@),
        match (res, login_spec(old(pending)@, *req, now, *lk)) {
            (Ok(p), Ok(v)) => plan_is(p, v),
            (Err(e), Err(se)) => e == se,
            _ => false,
        },
{
    let bytes = match take_and_check_challenge(pending, req.public_key.as_str(), now, req.challenge.as_str()) {
        Ok(b) => b,
        Err(e) => return Err(e),
    };
    match check_challenge_signature(req.public_key.as_str(), bytes.as_slice(), req.signature.as_str()) {
        Ok(()) => {},
        Err(e) => return Err(e),
    }
    let cert: Option<&SubkeyCert> = match &req.subkey_cert {
        Some(c) => Some(c),
        None => None,
    };
    let (canonical, master) = match resolve_canonical_identity(
        req.public_key.as_str(),
        cert,
        lk.user_with_master.clone(),
        lk.legacy_user.clone(),
    ) {
        Ok(r) => r,
        Err(e) => return Err(e),
    };
    let banned = lists_key(&lk.banned_users, canonical.as_str());
    let has_roles = lists_key(&lk.users_with_roles, canonical.as_str());
    let role_count: i64 = if has_roles { 1 } else { 0 };
    let code: Option<&str> = match &req.invite_code {
        Some(c) => Some(c.as_str()),
        None => None,
    };
    let invite = match admission_gates(
        banned,
        lk.min_security_level,
        req.security_level,
        lk.security_proof_valid,
        role_count,
        lk.invite_only,
        code,
    ) {
        Ok(i) => i,
        Err(e) => return Err(e),
    };
    let approval = initial_approval_status(lk.require_approval, lk.existing_users);
    let owner_count: i64 = if lk.owner_exists { 1 } else { 0 };
    let roles = initial_roles(role_count, owner_count);
    Ok(LoginPlan { canonical_key: canonical, master_key: master, approval, invite_to_redeem: invite, roles })
}

/// A challenge answers one login only: once a login for a key has taken it,
/// whatever that login's outcome, the next login for the key, with no new
/// challenge issued, is refused for want of one.
pub proof fn law_login_challenge_single_use(
    pending: Map<Seq<char>, (Seq<u8>, u64)>,
    first: VerifyRequest,
    second: VerifyRequest,
    now: u64,
    lk: LoginLookups,
)
    requires
        first.public_key@ == second.public_key@,
    ensures
        login_spec(pending.remove(first.public_key@), second, now, lk) == Err::<LoginPlanView, AuthRejection>(AuthRejection::NoPendingChallenge),
{
}

/// A banned user is refused however the rest of the login goes, once the
/// challenge, signature and certificate check out.
pub proof fn law_banned_user_refused(pending: Map<Seq<char>, (Seq<u8>, u64)>, req: VerifyRequest, now: u64, lk: LoginLookups)
    ensures
        login_spec(pending, req, now, lk) is Ok ==> !key_listed(lk.banned_users@, login_spec(pending, req, now, lk)->Ok_0.canonical_key),
{
}

/// The token of an `Authorization: Bearer <token>` header.
pub fn bearer_token(header: Option<&str>) -> (res: Result<&str, AuthRejection>)
    ensures
        match header {
            None => res == Err::<&str, AuthRejection>(AuthRejection::MissingAuthorization),
            Some(h) => if has_prefix(h@, "Bearer "@) {
                res matches Ok(t) && t@ == h@.subrange(7, h@.len() as int)
            } else {
                res == Err::<&str, AuthRejection>(AuthRejection::InvalidAuthorizationFormat)
            },
        },
{
    proof {
        reveal_strlit("Bearer ");
    }
    let h = match header {
        None => return Err(AuthRejection::MissingAuthorization),
        Some(h) => h,
    };
    if !starts_with(h, "Bearer ") {
        return Err(AuthRejection::InvalidAuthorizationFormat);
    }
    Ok(h.substring_char(7, h.unicode_len()))
}

/// The session check of an authenticated request: the token's session row
/// (its user and that user's approval status) must exist, and a user still
/// pending approval may only reach `/me`.
pub fn session_gate(session: Option<(String, String)>, path: &str) -> (res: Result<AuthUser, AuthRejection>)
    ensures
        match session {
            None => res matches Err(AuthRejection::InvalidToken),
            Some((key, status)) => if status@ == "pending"@ && path@ != "/me"@ {
                res matches Err(AuthRejection::PendingApproval)
            } else {
                res matches Ok(u) && u.public_key@ == key@
            },
        },
{
    let (public_key, approval_status) = match session {
        None => return Err(AuthRejection::InvalidToken),
        Some(s) => s,
    };
    if str_eq(approval_status.as_str(), "pending") && !str_eq(path, "/me") {
        return Err(AuthRejection::PendingApproval);
    }
    Ok(AuthUser { public_key })
}

/// A login that succeeds holds the new user for approval exactly when the
/// hub requires approval and already has users; the first user, and every
/// user of a hub that does not require approval, is let in.
pub proof fn law_login_approval(pending: Map<Seq<char>, (Seq<u8>, u64)>, req: VerifyRequest, now: u64, lk: LoginLookups)
    ensures
        login_spec(pending, req, now, lk) matches Ok(v) ==> (v.approval == ApprovalStatus::Pending <==> lk.require_approval && lk.existing_users > 0),
        login_spec(pending, req, now, lk) matches Ok(v) ==> (v.approval == ApprovalStatus::Approved <==> !(lk.require_approval && lk.existing_users > 0)),
{
}

/// What a successful login says of the user: without a certificate the
/// login key is the canonical user and no master is recorded; the user is
/// not banned and met the proof-of-work minimum; a user holding no role
/// gets `@everyone`, and the Owner role too exactly when nobody holds it;
/// a user holding a role gets none; the invite code to redeem is the one
/// given, and only for a new user of an invite-only hub.
pub proof fn law_login_success(pending: Map<Seq<char>, (Seq<u8>, u64)>, req: VerifyRequest, now: u64, lk: LoginLookups)
    ensures
        login_spec(pending, req, now, lk) matches Ok(v) ==> {
            let new_user = !key_listed(lk.users_with_roles@, v.canonical_key);
            &&& req.subkey_cert is None ==> v.canonical_key == req.public_key@ && v.master_key is None
            &&& !key_listed(lk.banned_users@, v.canonical_key)
            &&& lk.min_security_level > 0 ==> lk.security_proof_valid && (req.security_level matches Some(l) && l >= lk.min_security_level)
            &&& v.roles.everyone == new_user
            &&& v.roles.owner == (new_user && !lk.owner_exists)
            &&& v.invite_to_redeem == (if new_user && lk.invite_only { opt_text(req.invite_code) } else { None })
            &&& new_user && lk.invite_only ==> req.invite_code is Some
        },
{
}

/// A login with the challenge issued to the key echoed in time and a good
/// signature over it, without a certificate, by a user who is not banned,
/// on a hub with no proof-of-work minimum that is not invite-only, lets
/// the user in as that key.
pub proof fn law_login_lets_in(pending: Map<Seq<char>, (Seq<u8>, u64)>, req: VerifyRequest, now: u64, lk: LoginLookups)
    requires
        pending.dom().contains(req.public_key@),
        now <= pending[req.public_key@].1,
        req.challenge@ == hex_encode_spec(pending[req.public_key@].0),
        signature_check_spec(req.public_key@, pending[req.public_key@].0, req.signature@) is Ok,
        req.subkey_cert is None,
        !key_listed(lk.banned_users@, req.public_key@),
        lk.min_security_level == 0,
        !lk.invite_only,
    ensures
        login_spec(pending, req, now, lk) matches Ok(v) && v.canonical_key == req.public_key@,
{
    lemma_hex_roundtrip(pending[req.public_key@].0);
}

/// A login refused at a gate names that gate: a banned user is refused as
/// banned, and a claimed level below a positive minimum as too low, once
/// the challenge, signature and certificate check out.
pub proof fn law_login_gate_refusals(pending: Map<Seq<char>, (Seq<u8>, u64)>, req: VerifyRequest, now: u64, lk: LoginLookups)
    requires
        pending.dom().contains(req.public_key@),
        now <= pending[req.public_key@].1,
        req.challenge@ == hex_encode_spec(pending[req.public_key@].0),
        signature_check_spec(req.public_key@, pending[req.public_key@].0, req.signature@) is Ok,
        req.subkey_cert is None,
    ensures
        key_listed(lk.banned_users@, req.public_key@) ==> login_spec(pending, req, now, lk) == Err::<LoginPlanView, AuthRejection>(AuthRejection::Banned),
        !key_listed(lk.banned_users@, req.public_key@) && lk.min_security_level > 0
            && (match req.security_level { Some(l) => l, None => 0 }) < lk.min_security_level
            ==> login_spec(pending, req, now, lk) == Err::<LoginPlanView, AuthRejection>(AuthRejection::SecurityLevelTooLow),
{
    lemma_hex_roundtrip(pending[req.public_key@].0);
}

} // verus!
