//! Direct messages: conversations of two (a DM) or more (a group), who may
//! read and post in them, and which remote hubs a new message goes to.

use vstd::prelude::*;

use crate::text::str_eq;

verus! {

/// Create-conversation request: the other participants' public keys, and
/// for remote ones the hub where each is reachable.
#[derive(Clone, Debug)]
pub struct CreateConversationRequest {
    pub members: Vec<String>,
    /// (public key, hub URL) pairs; a member without an entry is local.
    pub member_hubs: Vec<(String, String)>,
}

/// A conversation as the hub lists it.
#[derive(Clone, Debug)]
pub struct ConversationResponse {
    pub id: String,
    pub conv_type: String,
    pub members: Vec<String>,
    pub created_at: i64,
}

/// Send-DM request.
#[derive(Clone, Debug)]
pub struct SendDmRequest {
    pub content: String,
}

/// A direct message.
#[derive(Clone, Debug)]
pub struct DmMessageResponse {
    pub id: String,
    pub conversation_id: String,
    pub sender: String,
    pub sender_name: Option<String>,
    pub content: String,
    pub created_at: i64,
}

/// Hub-to-hub delivery envelope of one direct message.
#[derive(Clone, Debug)]
pub struct FederatedDmRequest {
    pub message_id: String,
    pub conversation_id: String,
    pub conv_type: String,
    pub sender: String,
    pub members: Vec<String>,
    pub content: String,
    pub signature: Option<String>,
    pub created_at: i64,
}

/// A member of a stored conversation; `hub_url` is `None` for a local one.
#[derive(Clone, Debug)]
pub struct ConvMember {
    pub public_key: String,
    pub hub_url: Option<String>,
}

/// Why a DM request was refused.
#[derive(Clone, Copy, Debug, PartialEq, Eq, Structural)]
pub enum DmRejection {
    /// A conversation needs at least one other member.
    NoMembers,
    /// The user is not a member of the conversation.
    NotMember,
    /// No such conversation.
    NotFound,
}

impl DmRejection {
    /// The HTTP status of the rejection.
    pub fn status(&self) -> (res: u16)
        ensures
            res == match self {
                DmRejection::NoMembers => 400u16,
                DmRejection::NotMember => 403u16,
                DmRejection::NotFound => 404u16,
            },
    {
        match self {
            DmRejection::NoMembers => 400,
            DmRejection::NotMember => 403,
            DmRejection::NotFound => 404,
        }
    }
}

/// The kind of a conversation with `other_members` other participants.
pub open spec fn conv_type_spec(other_members: nat) -> Seq<char> {
    if other_members == 1 { "dm"@ } else { "group"@ }
}

/// The hub URL given for `key`: the first entry naming it.
pub open spec fn hub_for_spec(hubs: Seq<(String, String)>, key: Seq<char>) -> Option<String>
    decreases hubs.len(),
{
    if hubs.len() == 0 {
        None
    } else if hubs[0].0@ == key {
        Some(hubs[0].1)
    } else {
        hub_for_spec(hubs.drop_first(), key)
    }
}

/// Whether each public key is given a hub at most once, as in a map from
/// key to hub.
pub open spec fn hub_keys_unique(hubs: Seq<(String, String)>) -> bool {
    forall|a: int, b: int| 0 <= a < b < hubs.len() ==> (#[trigger] hubs[a]).0@ != (#[trigger] hubs[b]).0@
}

/// With each key given once, the lookup finds the entry for the key.
pub proof fn lemma_hub_for_entry(hubs: Seq<(String, String)>, j: int)
    requires
        hub_keys_unique(hubs),
        0 <= j < hubs.len(),
    ensures
        hub_for_spec(hubs, hubs[j].0@) == Some(hubs[j].1),
    decreases hubs.len(),
{
    if j > 0 {
        let rest = hubs.drop_first();
        assert(hubs[0].0@ != hubs[j].0@);
        assert forall|a: int, b: int| 0 <= a < b < rest.len() implies (#[trigger] rest[a]).0@ != (#[trigger] rest[b]).0@ by {
            assert(rest[a] == hubs[a + 1]);
            assert(rest[b] == hubs[b + 1]);
        }
        assert(rest[j - 1] == hubs[j]);
        lemma_hub_for_entry(rest, j - 1);
    }
}

/// Looks up the hub URL given for a member.
pub fn hub_for(hubs: &Vec<(String, String)>, key: &str) -> (res: Option<String>)
    ensures
        res == hub_for_spec(hubs@, key@),
{
    let mut i: usize = 0;
    proof {
        assert(hubs@.skip(0) =~= hubs@);
    }
    while i < hubs.len()
        invariant
            0 <= i <= hubs@.len(),
            hub_for_spec(hubs@, key@) == hub_for_spec(hubs@.skip(i as int), key@),
        decreases hubs@.len() - i,
    {
        proof {
            assert(hubs@.skip(i as int).drop_first() =~= hubs@.skip(i as int + 1));
        }
        if str_eq(hubs[i].0.as_str(), key) {
            return Some(hubs[i].1.clone());
        }
        i = i + 1;
    }
    None
}

/// What creating a conversation stores: its kind, each other member with
/// the hub URL given for it, and the full member list with the creator last.
#[derive(Clone, Debug)]
pub struct ConversationPlan {
    pub conv_type: String,
    pub member_rows: Vec<ConvMember>,
    pub all_members: Vec<String>,
}

/// Plans a new conversation for `creator`. It is a DM with one other member
/// and a group with more; with none it is refused.
pub fn plan_conversation(req: &CreateConversationRequest, creator: &str) -> (res: Result<ConversationPlan, DmRejection>)
    requires
        hub_keys_unique(req.member_hubs@),
    ensures
        req.members@.len() == 0 <==> res is Err,
        res matches Err(e) ==> e == DmRejection::NoMembers,
        res matches Ok(plan) ==> {
            &&& plan.conv_type@ == conv_type_spec(req.members@.len())
            &&& plan.member_rows@.len() == req.members@.len()
            &&& forall|i: int| 0 <= i < req.members@.len() ==> {
                &&& (#[trigger] plan.member_rows@[i]).public_key == req.members@[i]
                &&& plan.member_rows@[i].hub_url == hub_for_spec(req.member_hubs@, req.members@[i]@)
            }
            &&& forall|i: int, j: int| 0 <= i < req.members@.len() && 0 <= j < req.member_hubs@.len()
                && (#[trigger] req.member_hubs@[j]).0@ == (#[trigger] req.members@[i])@ ==> plan.member_rows@[i].hub_url == Some(req.member_hubs@[j].1)
            &&& plan.all_members@ == req.members@.push(plan.all_members@.last())
            &&& plan.all_members@.last()@ == creator@
        },
{
    if req.members.len() == 0 {
        return Err(DmRejection::NoMembers);
    }
    let conv_type = if req.members.len() == 1 {
        String::from_str("dm")
    } else {
        String::from_str("group")
    };
    proof {
        reveal_strlit("dm");
        reveal_strlit("group");
    }
    let mut rows: Vec<ConvMember> = Vec::new();
    let mut all: Vec<String> = Vec::new();
    let mut i: usize = 0;
    while i < req.members.len()
        invariant
            0 <= i <= req.members@.len(),
            rows@.len() == i,
            all@ == req.members@.take(i as int),
            forall|j: int| 0 <= j < i ==> {
                &&& (#[trigger] rows@[j]).public_key == req.members@[j]
                &&& rows@[j].hub_url == hub_for_spec(req.member_hubs@, req.members@[j]@)
            },
        decreases req.members@.len() - i,
    {
        let key = req.members[i].clone();
        let hub = hub_for(&req.member_hubs, key.as_str());
        rows.push(ConvMember { public_key: key, hub_url: hub });
        all.push(req.members[i].clone());
        proof {
            assert(req.members@.take(i as int + 1) =~= req.members@.take(i as int).push(req.members@[i as int]));
        }
        i = i + 1;
    }
    proof {
        assert(req.members@.take(req.members@.len() as int) =~= req.members@);
    }
    proof {
        assert forall|i: int, j: int| 0 <= i < req.members@.len() && 0 <= j < req.member_hubs@.len()
            && (#[trigger] req.member_hubs@[j]).0@ == (#[trigger] req.members@[i])@ implies rows@[i].hub_url == Some(req.member_hubs@[j].1) by {
            lemma_hub_for_entry(req.member_hubs@, j);
        }
    }
    all.push(String::from_str(creator));
    Ok(ConversationPlan { conv_type, member_rows: rows, all_members: all })
}

/// The first candidate DM holding exactly two members. Each candidate is
/// a conversation of kind "dm" shared by both users, with its member count.
pub open spec fn existing_dm_spec(candidates: Seq<(String, i64)>) -> Option<String>
    decreases candidates.len(),
{
    if candidates.len() == 0 {
        None
    } else if candidates[0].1 == 2 {
        Some(candidates[0].0)
    } else {
        existing_dm_spec(candidates.drop_first())
    }
}

/// Picks the DM that creating a one-to-one conversation returns instead of
/// making a new one.
pub fn pick_existing_dm(candidates: &Vec<(String, i64)>) -> (res: Option<String>)
    ensures
        res == existing_dm_spec(candidates@),
{
    let mut i: usize = 0;
    proof {
        assert(candidates@.skip(0) =~= candidates@);
    }
    while i < candidates.len()
        invariant
            0 <= i <= candidates@.len(),
            existing_dm_spec(candidates@) == existing_dm_spec(candidates@.skip(i as int)),
        decreases candidates@.len() - i,
    {
        proof {
            assert(candidates@.skip(i as int).drop_first() =~= candidates@.skip(i as int + 1));
        }
        if candidates[i].1 == 2 {
            return Some(candidates[i].0.clone());
        }
        i = i + 1;
    }
    None
}

/// Whether `key` is among the members.
pub open spec fn is_member_spec(members: Seq<ConvMember>, key: Seq<char>) -> bool {
    exists|i: int| 0 <= i < members.len() && (#[trigger] members[i]).public_key@ == key
}

/// Whether `key` is among the members.
pub fn is_member(members: &Vec<ConvMember>, key: &str) -> (res: bool)
    ensures
        res == is_member_spec(members@, key@),
{
    let mut i: usize = 0;
    while i < members.len()
        invariant
            0 <= i <= members@.len(),
            forall|j: int| 0 <= j < i ==> (#[trigger] members@[j]).public_key@ != key@,
        decreases members@.len() - i,
    {
        if str_eq(members[i].public_key.as_str(), key) {
            return true;
        }
        i = i + 1;
    }
    false
}

/// Who may post in a conversation: a member, of one that exists. On
/// success the conversation's kind is handed back.
pub fn check_send_dm(members: &Vec<ConvMember>, user: &str, conv_type: Option<String>) -> (res: Result<String, DmRejection>)
    ensures
        res == if !is_member_spec(members@, user@) {
            Err(DmRejection::NotMember)
        } else {
            match conv_type {
                None => Err(DmRejection::NotFound),
                Some(t) => Ok(t),
            }
        },
{
    if !is_member(members, user) {
        return Err(DmRejection::NotMember);
    }
    match conv_type {
        None => Err(DmRejection::NotFound),
        Some(t) => Ok(t),
    }
}

/// Who may read a conversation: a member (`membership_count` is the number
/// of membership rows the user has in it).
pub fn check_read_dm(membership_count: i64) -> (res: Result<(), DmRejection>)
    ensures
        res == if membership_count == 0 { Err(DmRejection::NotMember) } else { Ok::<(), DmRejection>(()) },
{
    if membership_count == 0 {
        Err(DmRejection::NotMember)
    } else {
        Ok(())
    }
}

/// The remote hubs a message from `sender` goes to: the hub of each other
/// member that has one, in member order.
pub open spec fn delivery_targets_spec(members: Seq<ConvMember>, sender: Seq<char>) -> Seq<String>
    decreases members.len(),
{
    if members.len() == 0 {
        Seq::empty()
    } else {
        let rest = delivery_targets_spec(members.drop_last(), sender);
        let m = members.last();
        if m.public_key@ != sender && m.hub_url is Some {
            rest.push(m.hub_url->0)
        } else {
            rest
        }
    }
}

/// Lists the remote hubs a message from `sender` goes to.
pub fn delivery_targets(members: &Vec<ConvMember>, sender: &str) -> (res: Vec<String>)
    ensures
        res@ == delivery_targets_spec(members@, sender@),
{
    let mut out: Vec<String> = Vec::new();
    let mut i: usize = 0;
    while i < members.len()
        invariant
            0 <= i <= members@.len(),
            out@ == delivery_targets_spec(members@.take(i as int), sender@),
        decreases members@.len() - i,
    {
        proof {
            assert(members@.take(i as int + 1).drop_last() =~= members@.take(i as int));
            assert(members@.take(i as int + 1).last() == members@[i as int]);
        }
        let m = &members[i];
        if !str_eq(m.public_key.as_str(), sender) {
            match &m.hub_url {
                Some(url) => out.push(url.clone()),
                None => {},
            }
        }
        i = i + 1;
    }
    proof {
        assert(members@.take(members@.len() as int) =~= members@);
    }
    out
}

/// The public keys of the members, in order.
pub fn member_keys(members: &Vec<ConvMember>) -> (res: Vec<String>)
    ensures
        res@.len() == members@.len(),
        forall|i: int| 0 <= i < members@.len() ==> (#[trigger] res@[i]) == members@[i].public_key,
{
    let mut out: Vec<String> = Vec::new();
    let mut i: usize = 0;
    while i < members.len()
        invariant
            0 <= i <= members@.len(),
            out@.len() == i,
            forall|j: int| 0 <= j < i ==> (#[trigger] out@[j]) == members@[j].public_key,
        decreases members@.len() - i,
    {
        out.push(members[i].public_key.clone());
        i = i + 1;
    }
    out
}

/// The delivery envelope of a stored direct message.
pub fn federated_envelope(
    message_id: String,
    conversation_id: String,
    conv_type: String,
    sender: String,
    members: Vec<String>,
    content: String,
    signature: Option<String>,
    created_at: i64,
) -> (res: FederatedDmRequest)
    ensures
        res == (FederatedDmRequest { message_id, conversation_id, conv_type, sender, members, content, signature, created_at }),
{
    FederatedDmRequest { message_id, conversation_id, conv_type, sender, members, content, signature, created_at }
}

/// What a hub does with a delivered envelope.
#[derive(Clone, Copy, Debug, PartialEq, Eq, Structural)]
pub enum ReceiveAction {
    /// The message is already stored: accept it again, change nothing.
    AlreadyStored,
    /// First message of an unknown conversation: create it with the
    /// envelope's members, then store the message.
    CreateConversationAndStore,
    /// Store the message in the known conversation.
    Store,
}

/// Decides how a delivered envelope is taken in; delivery is idempotent.
pub fn plan_receive(message_known: bool, conversation_known: bool) -> (res: ReceiveAction)
    ensures
        res == if message_known {
            ReceiveAction::AlreadyStored
        } else if conversation_known {
            ReceiveAction::Store
        } else {
            ReceiveAction::CreateConversationAndStore
        },
{
    if message_known {
        ReceiveAction::AlreadyStored
    } else if conversation_known {
        ReceiveAction::Store
    } else {
        ReceiveAction::CreateConversationAndStore
    }
}

/// The time stamped on the live event of a received message: the sender's
/// time, or the local clock if that is later.
pub fn received_event_time(created_at: i64, now: i64) -> (res: i64)
    ensures
        res == if created_at >= now { created_at } else { now },
{
    if created_at >= now {
        created_at
    } else {
        now
    }
}

/// A message goes only to the hubs of members other than its sender that
/// live on another hub, at most once per such member.
pub proof fn law_delivery_targets_are_remote_members(members: Seq<ConvMember>, sender: Seq<char>)
    ensures
        delivery_targets_spec(members, sender).len() <= members.len(),
        forall|t: int| 0 <= t < delivery_targets_spec(members, sender).len() ==> exists|i: int| 0 <= i < members.len()
            && (#[trigger] members[i]).public_key@ != sender && members[i].hub_url == Some(#[trigger] delivery_targets_spec(members, sender)[t]),
    decreases members.len(),
{
    if members.len() > 0 {
        let rest = members.drop_last();
        law_delivery_targets_are_remote_members(rest, sender);
        let d = delivery_targets_spec(members, sender);
        let dr = delivery_targets_spec(rest, sender);
        assert forall|t: int| 0 <= t < d.len() implies exists|i: int| 0 <= i < members.len()
            && (#[trigger] members[i]).public_key@ != sender && members[i].hub_url == Some(#[trigger] d[t]) by {
            if t < dr.len() {
                assert(d[t] == dr[t]);
                let i = choose|i: int| 0 <= i < rest.len() && (#[trigger] rest[i]).public_key@ != sender && rest[i].hub_url == Some(#[trigger] dr[t]);
                assert(members[i] == rest[i]);
            } else {
                assert(members[members.len() - 1] == members.last());
            }
        }
    }
}

/// A conversation is a DM exactly when it has two members, its creator
/// and one other; the creator is always a member.
pub proof fn law_conversation_kind(other_members: nat)
    requires
        other_members >= 1,
    ensures
        (conv_type_spec(other_members) == "dm"@) <==> other_members + 1 == 2,
{
    reveal_strlit("dm");
    reveal_strlit("group");
    assert("dm"@.len() != "group"@.len());
}

/// A message reaches the hub of every member other than the sender that
/// has one, wherever the sender and that member stand in the list.
pub proof fn law_delivery_reaches_remote_members(members: Seq<ConvMember>, sender: Seq<char>, i: int, hub: String)
    requires
        0 <= i < members.len(),
        members[i].public_key@ != sender,
        members[i].hub_url == Some(hub),
    ensures
        delivery_targets_spec(members, sender).contains(hub),
    decreases members.len(),
{
    let rest = members.drop_last();
    let d = delivery_targets_spec(members, sender);
    if i == members.len() - 1 {
        assert(d[d.len() - 1] == hub);
    } else {
        assert(rest[i] == members[i]);
        law_delivery_reaches_remote_members(rest, sender, i, hub);
        let dr = delivery_targets_spec(rest, sender);
        let k = choose|k: int| 0 <= k < dr.len() && dr[k] == hub;
        assert(d[k] == dr[k]);
    }
}

} // verus!
