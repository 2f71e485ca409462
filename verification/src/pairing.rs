//! Device pairing through a hub. An existing device posts a signed offer,
//! the new device claims it with a proof of its subkey, and the existing
//! device completes it with a master-signed certificate. An offer lives at
//! most five minutes and only moves forward: pending, claimed, complete.

use vstd::prelude::*;
use vstd::utf8::encode_utf8;

use crate::text::str_eq;
use crate::wire::{check_sig_spec, PairingClaim, PairingComplete, PairingOffer, WireError};

verus! {

/// The longest lifetime of an offer, in seconds.
pub const MAX_OFFER_LIFETIME_SECS: u64 = 300;

/// The shortest pairing token, in bytes.
pub const MIN_PAIRING_TOKEN_BYTES: usize = 32;

/// Why a pairing step was refused.
#[derive(Clone, Copy, Debug, PartialEq, Eq, Structural)]
pub enum PairingRejection {
    /// The offer's, claim's or certificate's signature does not check out.
    BadSignature(WireError),
    /// The offer expires no later than it was issued.
    NonPositiveLifetime,
    /// The offer lives longer than five minutes.
    LifetimeTooLong,
    /// The offer has already expired.
    AlreadyExpired,
    /// The pairing token is shorter than 32 bytes.
    TokenTooShort,
    /// No offer with that token.
    NotFound,
    /// The offer has expired.
    Expired,
    /// The offer is not in the state the step needs.
    WrongState,
    /// The certificate's master key is not the offer's.
    MasterMismatch,
    /// The certificate's subkey is not the claimed one.
    SubkeyMismatch,
    /// The stored state is not one the protocol knows.
    UnknownState,
}

impl PairingRejection {
    /// The HTTP status of the rejection.
    pub open spec fn status_spec(self) -> u16 {
        match self {
            PairingRejection::NotFound => 404,
            PairingRejection::Expired => 410,
            PairingRejection::WrongState => 409,
            PairingRejection::UnknownState => 500,
            _ => 400,
        }
    }

    /// The HTTP status of the rejection.
    pub fn status(&self) -> (res: u16)
        ensures
            res == self.status_spec(),
    {
        match self {
            PairingRejection::NotFound => 404,
            PairingRejection::Expired => 410,
            PairingRejection::WrongState => 409,
            PairingRejection::UnknownState => 500,
            _ => 400,
        }
    }
}

/// The checks an offer must pass, in order: the master's signature, a
/// positive lifetime of at most five minutes, not yet expired at `now`,
/// and a token of at least 32 bytes.
pub open spec fn offer_check_spec(offer: PairingOffer, now: u64) -> Result<(), PairingRejection> {
    match check_sig_spec(offer.master_pubkey@, offer.signing_bytes_spec(), offer.signature@) {
        Err(e) => Err(PairingRejection::BadSignature(e)),
        Ok(_) => if offer.expires_at <= offer.issued_at {
            Err(PairingRejection::NonPositiveLifetime)
        } else if offer.expires_at - offer.issued_at > MAX_OFFER_LIFETIME_SECS {
            Err(PairingRejection::LifetimeTooLong)
        } else if offer.expires_at <= now {
            Err(PairingRejection::AlreadyExpired)
        } else if encode_utf8(offer.pairing_token@).len() < MIN_PAIRING_TOKEN_BYTES {
            Err(PairingRejection::TokenTooShort)
        } else {
            Ok(())
        },
    }
}

/// Checks an offer before it is stored as pending.
pub fn check_offer(offer: &PairingOffer, now: u64) -> (res: Result<(), PairingRejection>)
    ensures
        res == offer_check_spec(*offer, now),
{
    match offer.verify() {
        Err(e) => return Err(PairingRejection::BadSignature(e)),
        Ok(()) => {},
    }
    if offer.expires_at <= offer.issued_at {
        return Err(PairingRejection::NonPositiveLifetime);
    }
    if offer.expires_at.saturating_sub(offer.issued_at) > MAX_OFFER_LIFETIME_SECS {
        return Err(PairingRejection::LifetimeTooLong);
    }
    if offer.expires_at <= now {
        return Err(PairingRejection::AlreadyExpired);
    }
    if offer.pairing_token.as_str().as_bytes().len() < MIN_PAIRING_TOKEN_BYTES {
        return Err(PairingRejection::TokenTooShort);
    }
    Ok(())
}

/// The checks a claim must pass, in order: the subkey's proof, an offer
/// with the token, not expired, and still pending. `stored` is the stored
/// (state, expiry) of the offer.
pub open spec fn claim_check_spec(claim: PairingClaim, stored: Option<(Seq<char>, i64)>, now: i64) -> Result<(), PairingRejection> {
    match check_sig_spec(claim.subkey_pubkey@, claim.signing_bytes_spec(), claim.proof@) {
        Err(e) => Err(PairingRejection::BadSignature(e)),
        Ok(_) => match stored {
            None => Err(PairingRejection::NotFound),
            Some((state, expires_at)) => if expires_at < now {
                Err(PairingRejection::Expired)
            } else if state != "pending"@ {
                Err(PairingRejection::WrongState)
            } else {
                Ok(())
            },
        },
    }
}

/// Checks a claim before the offer moves to claimed.
pub fn check_claim(claim: &PairingClaim, stored: Option<(&str, i64)>, now: i64) -> (res: Result<(), PairingRejection>)
    ensures
        res == claim_check_spec(*claim, match stored { Some((s, e)) => Some((s@, e)), None => None }, now),
{
    match claim.verify() {
        Err(e) => return Err(PairingRejection::BadSignature(e)),
        Ok(()) => {},
    }
    match stored {
        None => Err(PairingRejection::NotFound),
        Some((state, expires_at)) => {
            if expires_at < now {
                Err(PairingRejection::Expired)
            } else if !str_eq(state, "pending") {
                Err(PairingRejection::WrongState)
            } else {
                Ok(())
            }
        },
    }
}

/// A stored offer as the complete step reads it.
#[derive(Clone, Debug)]
pub struct StoredOffer {
    pub state: String,
    pub master_pubkey: String,
    pub subkey_pubkey: Option<String>,
    pub expires_at: i64,
}

/// The checks a completion must pass, in order: the certificate's master
/// signature, an offer with the token, not expired, claimed, and a
/// certificate for the offer's master and the claimed subkey.
pub open spec fn complete_check_spec(complete: PairingComplete, stored: Option<StoredOffer>, now: i64) -> Result<(), PairingRejection> {
    match check_sig_spec(complete.cert.master_pubkey@, complete.cert.signing_bytes_spec(), complete.cert.signature@) {
        Err(e) => Err(PairingRejection::BadSignature(e)),
        Ok(_) => match stored {
            None => Err(PairingRejection::NotFound),
            Some(offer) => if offer.expires_at < now {
                Err(PairingRejection::Expired)
            } else if offer.state@ != "claimed"@ {
                Err(PairingRejection::WrongState)
            } else if complete.cert.master_pubkey@ != offer.master_pubkey@ {
                Err(PairingRejection::MasterMismatch)
            } else if !(offer.subkey_pubkey matches Some(k) && k@ == complete.cert.subkey_pubkey@) {
                Err(PairingRejection::SubkeyMismatch)
            } else {
                Ok(())
            },
        },
    }
}

/// Checks a completion before the certificate is registered and the
/// offer moves to complete.
pub fn check_complete(complete: &PairingComplete, stored: &Option<StoredOffer>, now: i64) -> (res: Result<(), PairingRejection>)
    ensures
        res == complete_check_spec(*complete, *stored, now),
{
    match complete.cert.verify() {
        Err(e) => return Err(PairingRejection::BadSignature(e)),
        Ok(()) => {},
    }
    match stored {
        None => Err(PairingRejection::NotFound),
        Some(offer) => {
            if offer.expires_at < now {
                return Err(PairingRejection::Expired);
            }
            if !str_eq(offer.state.as_str(), "claimed") {
                return Err(PairingRejection::WrongState);
            }
            if !str_eq(complete.cert.master_pubkey.as_str(), offer.master_pubkey.as_str()) {
                return Err(PairingRejection::MasterMismatch);
            }
            match &offer.subkey_pubkey {
                Some(k) => if !str_eq(k.as_str(), complete.cert.subkey_pubkey.as_str()) {
                    return Err(PairingRejection::SubkeyMismatch);
                },
                None => return Err(PairingRejection::SubkeyMismatch),
            }
            Ok(())
        },
    }
}

/// What the status endpoint reports of an offer, before its fields are
/// filled in.
#[derive(Clone, Copy, Debug, PartialEq, Eq, Structural)]
pub enum StatusKind {
    Expired,
    Pending,
    Claimed,
    Complete,
}

/// The status of a stored offer: expired once its time is past, else its
/// stored state; an unknown state is a server error.
pub open spec fn status_kind_spec(state: Seq<char>, expires_at: i64, now: i64) -> Result<StatusKind, PairingRejection> {
    if expires_at < now {
        Ok(StatusKind::Expired)
    } else if state == "pending"@ {
        Ok(StatusKind::Pending)
    } else if state == "claimed"@ {
        Ok(StatusKind::Claimed)
    } else if state == "complete"@ {
        Ok(StatusKind::Complete)
    } else {
        Err(PairingRejection::UnknownState)
    }
}

/// Classifies a stored offer for the status endpoint.
pub fn status_kind(state: &str, expires_at: i64, now: i64) -> (res: Result<StatusKind, PairingRejection>)
    ensures
        res == status_kind_spec(state@, expires_at, now),
{
    if expires_at < now {
        Ok(StatusKind::Expired)
    } else if str_eq(state, "pending") {
        Ok(StatusKind::Pending)
    } else if str_eq(state, "claimed") {
        Ok(StatusKind::Claimed)
    } else if str_eq(state, "complete") {
        Ok(StatusKind::Complete)
    } else {
        Err(PairingRejection::UnknownState)
    }
}

/// An accepted offer is signed by its master, lives at most five minutes,
/// and is still open at the time it is accepted.
pub proof fn law_accepted_offer_is_fresh(offer: PairingOffer, now: u64)
    requires
        offer_check_spec(offer, now) is Ok,
    ensures
        check_sig_spec(offer.master_pubkey@, offer.signing_bytes_spec(), offer.signature@) is Ok,
        offer.issued_at < offer.expires_at <= offer.issued_at + MAX_OFFER_LIFETIME_SECS,
        now < offer.expires_at,
        encode_utf8(offer.pairing_token@).len() >= MIN_PAIRING_TOKEN_BYTES,
{
}

/// The protocol only moves forward: a claim is taken only by a pending
/// offer, a completion only by a claimed one, and a completed pairing
/// certifies exactly the claimed subkey for the offer's master.
pub proof fn law_pairing_moves_forward(
    claim: PairingClaim,
    claim_state: Seq<char>,
    complete: PairingComplete,
    offer: StoredOffer,
    now: i64,
)
    ensures
        claim_check_spec(claim, Some((claim_state, now)), now) is Ok ==> claim_state == "pending"@,
        complete_check_spec(complete, Some(offer), now) is Ok ==> {
            &&& offer.state@ == "claimed"@
            &&& complete.cert.master_pubkey@ == offer.master_pubkey@
            &&& offer.subkey_pubkey matches Some(k) && k@ == complete.cert.subkey_pubkey@
        },
{
}

/// An offer past its expiry reports as expired whatever its state, and
/// refuses both a claim and a completion.
pub proof fn law_expired_offers_are_closed(
    claim: PairingClaim,
    complete: PairingComplete,
    offer: StoredOffer,
    state: Seq<char>,
    now: i64,
)
    requires
        offer.expires_at < now,
    ensures
        status_kind_spec(state, offer.expires_at, now) == Ok::<StatusKind, PairingRejection>(StatusKind::Expired),
        claim_check_spec(claim, Some((state, offer.expires_at)), now) is Err,
        complete_check_spec(complete, Some(offer), now) is Err,
{
}

} // verus!
