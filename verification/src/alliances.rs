//! Alliances of hubs: signed invites, shared channels, and messages posted
//! through the hub that owns a shared channel.

use vstd::prelude::*;
use vstd::utf8::{decode_utf8, encode_utf8, encode_utf8_decode_utf8, is_char_boundary};
use vstd::string::{StringExecFns, StrSliceExecFns};

use crate::crypto::ed25519_signature;
use crate::hexcodec::{hex_decode, hex_decode_spec, hex_encode, hex_encode_spec, lemma_hex_roundtrip};
use crate::identity::{verify_signature, verify_signature_spec, Identity};
use crate::text::{str_eq, trim_end_char, trim_end_char_spec};

verus! {

/// The URL an alliance member row holds for the hub itself.
pub const SELF_URL: &'static str = "self";

/// A channel shared into an alliance, with the hub that owns it.
#[derive(Clone, Debug)]
pub struct SharedChannelResponse {
    pub channel_id: String,
    pub channel_name: String,
    pub hub_public_key: String,
    pub hub_name: String,
}

/// A member hub of an alliance.
#[derive(Clone, Debug)]
pub struct AllianceMemberInfo {
    pub hub_public_key: String,
    pub hub_name: String,
    pub hub_url: String,
    pub joined_at: i64,
}

/// An invite another hub can use to join an alliance.
#[derive(Clone, Debug)]
pub struct AllianceInviteResponse {
    pub token: String,
    pub alliance_id: String,
    pub alliance_name: String,
    pub hub_url: String,
}

/// Why an alliance request was refused.
#[derive(Clone, Copy, Debug, PartialEq, Eq, Structural)]
pub enum AllianceRejection {
    /// The user lacks the admin permission.
    Forbidden,
    /// No such alliance.
    AllianceNotFound,
    /// No such channel.
    ChannelNotFound,
    /// The invite token is not hex text.
    InvalidInviteHex,
    /// The invite token is not this hub's signature of the alliance id.
    InvalidInvite,
    /// No member hub owns the channel.
    NotOnAnyHub,
    /// The member hub that owns the channel could not be reached with the
    /// message or the read.
    BadGateway,
}

impl AllianceRejection {
    /// The HTTP status of the rejection.
    pub fn status(&self) -> (res: u16)
        ensures
            res == match self {
                AllianceRejection::Forbidden | AllianceRejection::InvalidInvite => 403u16,
                AllianceRejection::InvalidInviteHex => 400u16,
                AllianceRejection::BadGateway => 502u16,
                _ => 404u16,
            },
    {
        match self {
            AllianceRejection::Forbidden | AllianceRejection::InvalidInvite => 403,
            AllianceRejection::InvalidInviteHex => 400,
            AllianceRejection::BadGateway => 502,
            _ => 404,
        }
    }
}

/// The invite token of an alliance: the hex text of the hub's signature
/// of the alliance id. The hub accepts every token it issues.
pub fn invite_token(hub: &Identity, alliance_id: &str) -> (res: String)
    ensures
        res@ == hex_encode_spec(ed25519_signature(hub.secret_spec(), encode_utf8(alliance_id@))),
        invite_check_spec(hub.public_key_hex_spec(), alliance_id@, res@) == Ok::<(), AllianceRejection>(()),
{
    let sig = hub.sign(alliance_id.as_bytes());
    let bytes = sig.to_bytes();
    let token = hex_encode(&bytes);
    proof {
        lemma_hex_roundtrip(bytes@);
    }
    token
}

/// The invite a hub hands out for one of its alliances: its token, the
/// alliance, and `self` as the URL (the joining hub knows the inviter's URL
/// from the call it makes).
pub fn alliance_invite(hub: &Identity, alliance_id: String, alliance_name: String) -> (res: AllianceInviteResponse)
    ensures
        res.token@ == hex_encode_spec(ed25519_signature(hub.secret_spec(), encode_utf8(alliance_id@))),
        invite_check_spec(hub.public_key_hex_spec(), alliance_id@, res.token@) == Ok::<(), AllianceRejection>(()),
        res.alliance_id == alliance_id,
        res.alliance_name == alliance_name,
        res.hub_url@ == SELF_URL@,
{
    let token = invite_token(hub, alliance_id.as_str());
    AllianceInviteResponse { token, alliance_id, alliance_name, hub_url: String::from_str(SELF_URL) }
}

/// The outcome of checking an invite token for an alliance against the
/// hub's public key: hex text, then this hub's signature of the id.
pub open spec fn invite_check_spec(hub_public_key_hex: Seq<char>, alliance_id: Seq<char>, invite_token: Seq<char>) -> Result<(), AllianceRejection> {
    match hex_decode_spec(encode_utf8(invite_token)) {
        None => Err(AllianceRejection::InvalidInviteHex),
        Some(sig) => if verify_signature_spec(encode_utf8(hub_public_key_hex), encode_utf8(alliance_id), sig) is Ok {
            Ok(())
        } else {
            Err(AllianceRejection::InvalidInvite)
        },
    }
}

/// Checks the invite token a joining hub presents.
pub fn check_invite(hub_public_key_hex: &str, alliance_id: &str, invite_token: &str) -> (res: Result<(), AllianceRejection>)
    ensures
        res == invite_check_spec(hub_public_key_hex@, alliance_id@, invite_token@),
{
    let sig = match hex_decode(invite_token.as_bytes()) {
        Some(s) => s,
        None => return Err(AllianceRejection::InvalidInviteHex),
    };
    match verify_signature(hub_public_key_hex, alliance_id.as_bytes(), sig.as_slice()) {
        Ok(()) => Ok(()),
        Err(_) => Err(AllianceRejection::InvalidInvite),
    }
}

/// The characters of the first 16 bytes of a public key.
pub open spec fn key_head_spec(public_key: Seq<char>) -> Seq<char> {
    decode_utf8(encode_utf8(public_key).subrange(0, 16))
}

/// The text a message posted through another hub carries: the author's
/// name (or the first 16 bytes of their key) and the forwarding hub, then
/// the content, as in `[alice via hub.example] hello`.
pub open spec fn attributed_spec(display_name: Option<Seq<char>>, public_key: Seq<char>, hub_name: Seq<char>, content: Seq<char>) -> Seq<char> {
    let who = match display_name {
        Some(n) => n,
        None => key_head_spec(public_key),
    };
    "["@ + who + " via "@ + hub_name + "] "@ + content
}

/// Prefixes a forwarded message with its author and this hub's name, so
/// the attribution survives the hop through the hub's own identity.
pub fn attributed_content(display_name: Option<&str>, public_key: &str, hub_name: &str, content: &str) -> (res: String)
    requires
        display_name is None ==> {
            &&& encode_utf8(public_key@).len() >= 16
            &&& is_char_boundary(encode_utf8(public_key@), 16)
        },
    ensures
        res@ == attributed_spec(match display_name { Some(n) => Some(n@), None => None }, public_key@, hub_name@, content@),
{
    proof {
        reveal_strlit("[");
        reveal_strlit(" via ");
        reveal_strlit("] ");
    }
    let who: &str = match display_name {
        Some(n) => n,
        None => {
            let (head, _) = public_key.split_at(16);
            proof {
                encode_utf8_decode_utf8(head@);
            }
            head
        },
    };
    let mut out = String::from_str("[");
    out.append(who);
    out.append(" via ");
    out.append(hub_name);
    out.append("] ");
    out.append(content);
    out
}

/// The URL an alliance member row holds: `self` for the hub itself, so
/// that federated listings skip it, and the member's URL otherwise.
pub fn mirrored_member_url(member_key: &str, own_key: &str, hub_url: &str) -> (res: String)
    ensures
        res@ == if member_key@ == own_key@ { SELF_URL@ } else { hub_url@ },
{
    if str_eq(member_key, own_key) {
        String::from_str(SELF_URL)
    } else {
        String::from_str(hub_url)
    }
}

/// The inviter's URL as the joining hub stores it: without trailing slashes.
pub fn inviter_base_url(url: &str) -> (res: &str)
    ensures
        res@ == trim_end_char_spec(url@, '/'),
{
    trim_end_char(url, '/')
}

/// Sharing a channel: the admin permission, the alliance, the channel.
pub fn check_share_channel(is_admin: bool, alliance_exists: bool, channel_exists: bool) -> (res: Result<(), AllianceRejection>)
    ensures
        res == if !is_admin {
            Err(AllianceRejection::Forbidden)
        } else if !alliance_exists {
            Err(AllianceRejection::AllianceNotFound)
        } else if !channel_exists {
            Err(AllianceRejection::ChannelNotFound)
        } else {
            Ok(())
        },
{
    if !is_admin {
        Err(AllianceRejection::Forbidden)
    } else if !alliance_exists {
        Err(AllianceRejection::AllianceNotFound)
    } else if !channel_exists {
        Err(AllianceRejection::ChannelNotFound)
    } else {
        Ok(())
    }
}

/// Whether a listing of shared channels names the channel.
pub open spec fn lists_channel(s: Seq<SharedChannelResponse>, channel_id: Seq<char>) -> bool {
    exists|i: int| 0 <= i < s.len() && (#[trigger] s[i]).channel_id@ == channel_id
}

/// Whether a member hub owns a channel: the listing of channels it shares
/// into the alliance names it. (A member that cannot be reached owns none.)
pub fn peer_owns_channel(shared: &Vec<SharedChannelResponse>, channel_id: &str) -> (res: bool)
    ensures
        res == lists_channel(shared@, channel_id@),
{
    let mut i: usize = 0;
    while i < shared.len()
        invariant
            0 <= i <= shared@.len(),
            forall|j: int| 0 <= j < i ==> (#[trigger] shared@[j]).channel_id@ != channel_id@,
        decreases shared@.len() - i,
    {
        if str_eq(shared[i].channel_id.as_str(), channel_id) {
            assert(shared@[i as int].channel_id@ == channel_id@);
            return true;
        }
        i = i + 1;
    }
    false
}

/// Where a post to, or a read of, an alliance channel goes next.
#[derive(Clone, Copy, Debug, PartialEq, Eq, Structural)]
pub enum OwnerStep {
    /// The channel is one of this hub's own: serve it here.
    ServeLocally,
    /// The member just asked owns the channel: forward to it.
    UsePeer,
    /// Ask the next member hub.
    NextPeer,
    /// No member hub owns the channel (404).
    NotFound,
}

/// One step of the walk over the other member hubs that finds the owner
/// of an alliance channel. `probe` is the listing of shared channels the
/// member just asked gave back, or `None` where it gave none (no token
/// could be had, or the listing failed) or no member was asked yet;
/// `members_left` tells whether members remain to be asked after it.
pub fn alliance_owner_step(
    is_local: bool,
    probe: Option<&Vec<SharedChannelResponse>>,
    channel_id: &str,
    members_left: bool,
) -> (res: OwnerStep)
    ensures
        res == if is_local {
            OwnerStep::ServeLocally
        } else if probe is Some && lists_channel(probe->0@, channel_id@) {
            OwnerStep::UsePeer
        } else if members_left {
            OwnerStep::NextPeer
        } else {
            OwnerStep::NotFound
        },
{
    if is_local {
        return OwnerStep::ServeLocally;
    }
    let owns = match probe {
        Some(shared) => peer_owns_channel(shared, channel_id),
        None => false,
    };
    if owns {
        OwnerStep::UsePeer
    } else if members_left {
        OwnerStep::NextPeer
    } else {
        OwnerStep::NotFound
    }
}

/// Whether a member's probe names the channel.
pub open spec fn probe_lists(probe: Option<Vec<SharedChannelResponse>>, channel_id: Seq<char>) -> bool {
    probe is Some && lists_channel(probe->0@, channel_id)
}

/// The walk over the probes of the other member hubs, in order, one
/// `alliance_owner_step` each: the first member whose listing names the
/// channel owns it, and `None` means that no member does.
pub fn first_owner(probes: &Vec<Option<Vec<SharedChannelResponse>>>, channel_id: &str) -> (res: Option<usize>)
    ensures
        match res {
            Some(k) => {
                &&& k < probes@.len()
                &&& probe_lists(probes@[k as int], channel_id@)
                &&& forall|j: int| 0 <= j < k ==> !probe_lists(#[trigger] probes@[j], channel_id@)
            },
            None => forall|j: int| 0 <= j < probes@.len() ==> !probe_lists(#[trigger] probes@[j], channel_id@),
        },
{
    let mut i: usize = 0;
    while i < probes.len()
        invariant
            0 <= i <= probes@.len(),
            forall|j: int| 0 <= j < i ==> !probe_lists(#[trigger] probes@[j], channel_id@),
        decreases probes@.len() - i,
    {
        let probe: Option<&Vec<SharedChannelResponse>> = match &probes[i] {
            Some(p) => Some(p),
            None => None,
        };
        let step = alliance_owner_step(false, probe, channel_id, i + 1 < probes.len());
        if step == OwnerStep::UsePeer {
            return Some(i);
        }
        i = i + 1;
    }
    None
}

/// What the walk answers once it stops: no owner is a 404.
pub fn owner_step_rejection(step: OwnerStep) -> (res: Option<AllianceRejection>)
    ensures
        res == if step == OwnerStep::NotFound { Some(AllianceRejection::NotOnAnyHub) } else { None::<AllianceRejection> },
{
    match step {
        OwnerStep::NotFound => Some(AllianceRejection::NotOnAnyHub),
        _ => None,
    }
}

/// The answer to a post or a read forwarded to the owning member hub:
/// a failed delivery is a bad gateway (502).
pub fn delivery_outcome(ok: bool) -> (res: Result<(), AllianceRejection>)
    ensures
        res == if ok { Ok::<(), AllianceRejection>(()) } else { Err(AllianceRejection::BadGateway) },
{
    if ok {
        Ok(())
    } else {
        Err(AllianceRejection::BadGateway)
    }
}

/// The locally shared channels of an alliance, each tagged with this hub.
/// `rows` holds (channel id, channel name).
pub fn local_shared_channels(rows: &Vec<(String, String)>, hub_key: &str, hub_name: &str) -> (res: Vec<SharedChannelResponse>)
    ensures
        res@.len() == rows@.len(),
        forall|i: int| 0 <= i < rows@.len() ==> {
            &&& (#[trigger] res@[i]).channel_id == rows@[i].0
            &&& res@[i].channel_name == rows@[i].1
            &&& res@[i].hub_public_key@ == hub_key@
            &&& res@[i].hub_name@ == hub_name@
        },
{
    let mut out: Vec<SharedChannelResponse> = Vec::new();
    let mut i: usize = 0;
    while i < rows.len()
        invariant
            0 <= i <= rows@.len(),
            out@.len() == i,
            forall|j: int| 0 <= j < i ==> {
                &&& (#[trigger] out@[j]).channel_id == rows@[j].0
                &&& out@[j].channel_name == rows@[j].1
                &&& out@[j].hub_public_key@ == hub_key@
                &&& out@[j].hub_name@ == hub_name@
            },
        decreases rows@.len() - i,
    {
        out.push(SharedChannelResponse {
            channel_id: rows[i].0.clone(),
            channel_name: rows[i].1.clone(),
            hub_public_key: String::from_str(hub_key),
            hub_name: String::from_str(hub_name),
        });
        i = i + 1;
    }
    out
}

/// After the hub leaves, the alliance is deleted once no member is left.
pub fn delete_after_leave(remaining_members: i64) -> (res: bool)
    ensures
        res == (remaining_members == 0),
{
    remaining_members == 0
}

} // verus!
