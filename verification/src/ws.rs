//! One live WebSocket session: the channels it follows, the voice channel
//! it is in, and which broadcast events it passes on to its client.
//! The socket loop itself runs outside; it feeds each client message and
//! each broadcast event to the session and acts on the answer.

use vstd::prelude::*;

use crate::auth::AuthRejection;
use crate::messages::MessageResponse;
use crate::text::str_eq;
use crate::voice::VoiceRoster;

verus! {

/// Query of a socket upgrade: the session token.
#[derive(Clone, Debug)]
pub struct WsParams {
    pub token: String,
}

/// The user of a socket upgrade: the session's user, when the token names
/// a session.
pub fn ws_user(session_user: Option<String>) -> (res: Result<String, AuthRejection>)
    ensures
        res == match session_user {
            Some(u) => Ok::<String, AuthRejection>(u),
            None => Err(AuthRejection::InvalidToken),
        },
{
    match session_user {
        Some(u) => Ok(u),
        None => Err(AuthRejection::InvalidToken),
    }
}

/// A participant of a voice channel.
#[derive(Clone, Debug)]
pub struct VoiceParticipantInfo {
    pub public_key: String,
    pub display_name: Option<String>,
}

/// What a client sends over its socket.
#[derive(Clone, Debug)]
pub enum WsClientMessage {
    Subscribe { channel_id: String },
    Unsubscribe { channel_id: String },
    SubscribeAll,
    VoiceJoin { channel_id: String, udp_port: u16 },
    VoiceLeave { channel_id: String },
    VoiceSpeaking { channel_id: String, speaking: bool },
}

/// What the hub sends to a client.
#[derive(Clone, Debug)]
pub enum WsServerMessage {
    ChatMessage { channel_id: String, message: MessageResponse },
    VoiceJoined { channel_id: String, hub_udp_port: u16, participants: Vec<VoiceParticipantInfo> },
    VoiceParticipantJoined { channel_id: String, participant: VoiceParticipantInfo },
    VoiceParticipantLeft { channel_id: String, public_key: String },
    VoiceParticipantSpeaking { channel_id: String, public_key: String, speaking: bool },
    DirectMessage {
        conversation_id: String,
        sender: String,
        sender_name: Option<String>,
        content: String,
        timestamp: i64,
    },
}

/// The user a voice event is about, if it is one.
pub open spec fn voice_subject_spec(msg: WsServerMessage) -> Option<Seq<char>> {
    match msg {
        WsServerMessage::VoiceParticipantSpeaking { public_key, .. } => Some(public_key@),
        WsServerMessage::VoiceParticipantJoined { participant, .. } => Some(participant.public_key@),
        WsServerMessage::VoiceParticipantLeft { public_key, .. } => Some(public_key@),
        _ => None,
    }
}

/// What the socket loop must do after a client message.
#[derive(Clone, Debug)]
pub enum SessionAction {
    /// Nothing beyond the session's own state.
    Nothing,
    /// Register the user in a voice channel at the client's UDP port,
    /// confirm with the participant list, and announce the join.
    JoinVoice { channel_id: String, udp_port: u16 },
    /// Take the user out of a voice channel and announce it.
    LeaveVoice { channel_id: String },
    /// Announce the user's speaking state to the voice channel.
    AnnounceSpeaking { channel_id: String, speaking: bool },
}

/// What the socket loop does when the socket closes, for whatever reason
/// (the client closed it, the stream ended, a send failed): take the user
/// out of the online users, take them out of the voice channel they were
/// in, and tell that channel they left.
#[derive(Clone, Debug)]
pub struct CloseAction {
    /// The user to take out of the online users.
    pub public_key: String,
    /// The voice channel the user was in, to take them out of.
    pub leave_voice: Option<String>,
    /// The event to broadcast to that voice channel.
    pub announce: Option<WsServerMessage>,
}

/// The event that tells a voice channel a user left it.
pub open spec fn left_event(channel_id: Seq<char>, public_key: Seq<char>, msg: WsServerMessage) -> bool {
    msg matches WsServerMessage::VoiceParticipantLeft { channel_id: c, public_key: k } && c@ == channel_id && k@ == public_key
}

/// The abstract state of a session.
pub struct SessionView {
    pub public_key: Seq<char>,
    pub subscribed: Set<Seq<char>>,
    pub subscribe_all: bool,
    pub voice_channel: Option<Seq<char>>,
    pub conversations: Set<Seq<char>>,
}

/// The set of texts in a list of strings.
pub open spec fn text_set(v: Seq<String>) -> Set<Seq<char>> {
    Set::new(|s: Seq<char>| exists|i: int| 0 <= i < v.len() && (#[trigger] v[i])@ == s)
}

/// A live session.
pub struct WsSession {
    public_key: String,
    subscribed: Vec<String>,
    subscribe_all: bool,
    voice_channel: Option<String>,
    conversations: Vec<String>,
}

impl View for WsSession {
    type V = SessionView;

    closed spec fn view(&self) -> SessionView {
        SessionView {
            public_key: self.public_key@,
            subscribed: text_set(self.subscribed@),
            subscribe_all: self.subscribe_all,
            voice_channel: match self.voice_channel {
                Some(c) => Some(c@),
                None => None,
            },
            conversations: text_set(self.conversations@),
        }
    }
}

/// The session state after a client message.
pub open spec fn apply_spec(s: SessionView, msg: WsClientMessage) -> SessionView {
    match msg {
        WsClientMessage::Subscribe { channel_id } => SessionView { subscribed: s.subscribed.insert(channel_id@), ..s },
        WsClientMessage::Unsubscribe { channel_id } => SessionView { subscribed: s.subscribed.remove(channel_id@), ..s },
        WsClientMessage::SubscribeAll => SessionView { subscribe_all: true, ..s },
        WsClientMessage::VoiceJoin { channel_id, .. } => SessionView { voice_channel: Some(channel_id@), ..s },
        WsClientMessage::VoiceLeave { .. } => SessionView { voice_channel: None, ..s },
        WsClientMessage::VoiceSpeaking { .. } => s,
    }
}

/// Whether a session passes on a chat event of a channel.
pub open spec fn forwards_chat_spec(s: SessionView, channel_id: Seq<char>) -> bool {
    s.subscribe_all || s.subscribed.contains(channel_id)
}

/// Whether a session passes on a voice event of a channel: it is in that
/// voice channel, and the event is not about its own user.
pub open spec fn forwards_voice_spec(s: SessionView, channel_id: Seq<char>, msg: WsServerMessage) -> bool {
    s.voice_channel == Some(channel_id) && voice_subject_spec(msg) != Some(s.public_key)
}

/// Whether a session passes on a direct message: its user is in the
/// conversation and did not send it.
pub open spec fn forwards_dm_spec(s: SessionView, sender: Seq<char>, conversation_id: Seq<char>) -> bool {
    sender != s.public_key && s.conversations.contains(conversation_id)
}

fn contains_text(v: &Vec<String>, s: &str) -> (res: bool)
    ensures
        res == text_set(v@).contains(s@),
{
    let mut i: usize = 0;
    while i < v.len()
        invariant
            0 <= i <= v@.len(),
            forall|j: int| 0 <= j < i ==> (#[trigger] v@[j])@ != s@,
        decreases v@.len() - i,
    {
        if str_eq(v[i].as_str(), s) {
            assert(v@[i as int]@ == s@);
            return true;
        }
        i = i + 1;
    }
    false
}

fn without_text(v: &Vec<String>, s: &str) -> (res: Vec<String>)
    ensures
        text_set(res@) == text_set(v@).remove(s@),
{
    let mut out: Vec<String> = Vec::new();
    let mut i: usize = 0;
    while i < v.len()
        invariant
            0 <= i <= v@.len(),
            forall|j: int| 0 <= j < out@.len() ==> (#[trigger] out@[j])@ != s@,
            forall|j: int| 0 <= j < out@.len() ==> exists|k: int| 0 <= k < i && (#[trigger] v@[k])@ == (#[trigger] out@[j])@,
            forall|k: int| 0 <= k < i && (#[trigger] v@[k])@ != s@ ==> exists|j: int| 0 <= j < out@.len() && (#[trigger] out@[j])@ == v@[k]@,
        decreases v@.len() - i,
    {
        let ghost old_out = out@;
        if !str_eq(v[i].as_str(), s) {
            let c = v[i].clone();
            out.push(c);
            proof {
                assert(out@[out@.len() - 1]@ == v@[i as int]@);
            }
        }
        proof {
            assert forall|k: int| 0 <= k < i + 1 && (#[trigger] v@[k])@ != s@ implies exists|j: int| 0 <= j < out@.len() && (#[trigger] out@[j])@ == v@[k]@ by {
                if k < i {
                    let j = choose|j: int| 0 <= j < old_out.len() && (#[trigger] old_out[j])@ == v@[k]@;
                    assert(out@[j] == old_out[j]);
                } else {
                    assert(out@[out@.len() - 1]@ == v@[k]@);
                }
            }
        }
        i = i + 1;
    }
    proof {
        assert(text_set(out@) =~= text_set(v@).remove(s@)) by {
            assert forall|t: Seq<char>| text_set(out@).contains(t) implies text_set(v@).remove(s@).contains(t) by {
                let j = choose|j: int| 0 <= j < out@.len() && (#[trigger] out@[j])@ == t;
                let k = choose|k: int| 0 <= k < v@.len() && (#[trigger] v@[k])@ == out@[j]@;
                assert(v@[k]@ == t);
            }
            assert forall|t: Seq<char>| text_set(v@).remove(s@).contains(t) implies text_set(out@).contains(t) by {
                let k = choose|k: int| 0 <= k < v@.len() && (#[trigger] v@[k])@ == t;
                let j = choose|j: int| 0 <= j < out@.len() && (#[trigger] out@[j])@ == v@[k]@;
                assert(out@[j]@ == t);
            }
        }
    }
    out
}

impl WsSession {
    /// A fresh session for `public_key`, in the given conversations,
    /// following no channel and in no voice channel.
    pub fn new(public_key: String, conversations: Vec<String>) -> (res: WsSession)
        ensures
            res@.public_key == public_key@,
            res@.subscribed == Set::<Seq<char>>::empty(),
            !res@.subscribe_all,
            res@.voice_channel is None,
            res@.conversations == text_set(conversations@),
    {
        let res = WsSession { public_key, subscribed: Vec::new(), subscribe_all: false, voice_channel: None, conversations };
        proof {
            assert(text_set(res.subscribed@) =~= Set::<Seq<char>>::empty());
        }
        res
    }

    /// The session's user.
    pub fn public_key(&self) -> (res: &str)
        ensures
            res@ == self@.public_key,
    {
        self.public_key.as_str()
    }

    /// Takes in a client message: updates what the session follows and
    /// tells the socket loop what else to do.
    pub fn apply(&mut self, msg: WsClientMessage) -> (action: SessionAction)
        ensures
            final(self)@ == apply_spec(old(self)@, msg),
            action == match msg {
                WsClientMessage::VoiceJoin { channel_id, udp_port } => SessionAction::JoinVoice { channel_id, udp_port },
                WsClientMessage::VoiceLeave { channel_id } => SessionAction::LeaveVoice { channel_id },
                WsClientMessage::VoiceSpeaking { channel_id, speaking } => SessionAction::AnnounceSpeaking { channel_id, speaking },
                _ => SessionAction::Nothing,
            },
    {
        match msg {
            WsClientMessage::Subscribe { channel_id } => {
                if !contains_text(&self.subscribed, channel_id.as_str()) {
                    let ghost before = self.subscribed@;
                    self.subscribed.push(channel_id);
                    proof {
                        let v = self.subscribed@;
                        assert(text_set(v) =~= text_set(before).insert(v[v.len() - 1]@)) by {
                            assert forall|t: Seq<char>| text_set(v).contains(t) implies text_set(before).insert(v[v.len() - 1]@).contains(t) by {
                                let k = choose|k: int| 0 <= k < v.len() && (#[trigger] v[k])@ == t;
                                if k < before.len() {
                                    assert(before[k]@ == t);
                                }
                            }
                            assert forall|t: Seq<char>| text_set(before).insert(v[v.len() - 1]@).contains(t) implies text_set(v).contains(t) by {
                                if t != v[v.len() - 1]@ {
                                    let k = choose|k: int| 0 <= k < before.len() && (#[trigger] before[k])@ == t;
                                    assert(v[k]@ == t);
                                } else {
                                    assert(v[v.len() - 1]@ == t);
                                }
                            }
                        }
                    }
                } else {
                    proof {
                        assert(text_set(self.subscribed@) =~= text_set(self.subscribed@).insert(channel_id@));
                    }
                }
                SessionAction::Nothing
            },
            WsClientMessage::Unsubscribe { channel_id } => {
                self.subscribed = without_text(&self.subscribed, channel_id.as_str());
                SessionAction::Nothing
            },
            WsClientMessage::SubscribeAll => {
                self.subscribe_all = true;
                SessionAction::Nothing
            },
            WsClientMessage::VoiceJoin { channel_id, udp_port } => {
                self.voice_channel = Some(channel_id.clone());
                SessionAction::JoinVoice { channel_id, udp_port }
            },
            WsClientMessage::VoiceLeave { channel_id } => {
                self.voice_channel = None;
                SessionAction::LeaveVoice { channel_id }
            },
            WsClientMessage::VoiceSpeaking { channel_id, speaking } => {
                SessionAction::AnnounceSpeaking { channel_id, speaking }
            },
        }
    }

    /// Whether a chat event of a channel goes to this client.
    pub fn forwards_chat(&self, channel_id: &str) -> (res: bool)
        ensures
            res == forwards_chat_spec(self@, channel_id@),
    {
        self.subscribe_all || contains_text(&self.subscribed, channel_id)
    }

    /// Whether a voice event of a channel goes to this client.
    pub fn forwards_voice(&self, channel_id: &str, msg: &WsServerMessage) -> (res: bool)
        ensures
            res == forwards_voice_spec(self@, channel_id@, *msg),
    {
        let in_channel = match &self.voice_channel {
            Some(c) => str_eq(c.as_str(), channel_id),
            None => false,
        };
        if !in_channel {
            return false;
        }
        let about_self = match msg {
            WsServerMessage::VoiceParticipantSpeaking { public_key, .. } => str_eq(public_key.as_str(), self.public_key.as_str()),
            WsServerMessage::VoiceParticipantJoined { participant, .. } => str_eq(participant.public_key.as_str(), self.public_key.as_str()),
            WsServerMessage::VoiceParticipantLeft { public_key, .. } => str_eq(public_key.as_str(), self.public_key.as_str()),
            _ => false,
        };
        !about_self
    }

    /// Whether a direct message goes to this client.
    pub fn forwards_dm(&self, sender: &str, conversation_id: &str) -> (res: bool)
        ensures
            res == forwards_dm_spec(self@, sender@, conversation_id@),
    {
        !str_eq(sender, self.public_key.as_str()) && contains_text(&self.conversations, conversation_id)
    }

    /// What closing the socket does: the user goes offline, and where they
    /// were in a voice channel, they leave it and the channel is told.
    pub fn close(&self) -> (res: CloseAction)
        ensures
            res.public_key@ == self@.public_key,
            match self@.voice_channel {
                Some(c) => {
                    &&& res.leave_voice matches Some(l) && l@ == c
                    &&& res.announce matches Some(m) && left_event(c, self@.public_key, m)
                },
                None => res.leave_voice is None && res.announce is None,
            },
    {
        match &self.voice_channel {
            Some(c) => CloseAction {
                public_key: self.public_key.clone(),
                leave_voice: Some(c.clone()),
                announce: Some(WsServerMessage::VoiceParticipantLeft { channel_id: c.clone(), public_key: self.public_key.clone() }),
            },
            None => CloseAction { public_key: self.public_key.clone(), leave_voice: None, announce: None },
        }
    }

    /// The voice channel to leave when the socket closes.
    pub fn voice_channel(&self) -> (res: Option<String>)
        ensures
            res matches Some(c) ==> self@.voice_channel == Some(c@),
            res is None ==> self@.voice_channel is None,
    {
        match &self.voice_channel {
            Some(c) => Some(c.clone()),
            None => None,
        }
    }
}

/// Carries out a close on the hub's record of who is online and of who is
/// in which voice channel: the user is no longer online, and no longer in
/// the voice channel they were in (a channel left empty is no longer listed).
pub fn apply_close(action: &CloseAction, roster: &mut VoiceRoster, online: &mut Vec<String>)
    ensures
        text_set(final(online)@) == text_set(old(online)@).remove(action.public_key@),
        match action.leave_voice {
            Some(c) => final(roster).ports() == old(roster).ports().remove((c@, action.public_key@)),
            None => final(roster).ports() == old(roster).ports(),
        },
{
    match &action.leave_voice {
        Some(c) => roster.leave(c.as_str(), action.public_key.as_str()),
        None => {},
    }
    let rest = without_text(online, action.public_key.as_str());
    *online = rest;
}

/// After subscribing to a channel a session passes on its chat; after
/// unsubscribing it does not, unless it follows every channel.
pub proof fn law_subscription_controls_chat(s: SessionView, channel_id: String)
    ensures
        forwards_chat_spec(apply_spec(s, WsClientMessage::Subscribe { channel_id }), channel_id@),
        forwards_chat_spec(apply_spec(s, WsClientMessage::Unsubscribe { channel_id }), channel_id@) == s.subscribe_all,
{
}

/// Following every channel is never undone by a client message.
pub proof fn law_subscribe_all_is_permanent(s: SessionView, msg: WsClientMessage, channel_id: Seq<char>)
    requires
        s.subscribe_all,
    ensures
        apply_spec(s, msg).subscribe_all,
        forwards_chat_spec(apply_spec(s, msg), channel_id),
{
}

/// A client is never sent its own voice events, and is sent voice events
/// only of the voice channel it is in.
pub proof fn law_no_voice_echo(s: SessionView, channel_id: Seq<char>, msg: WsServerMessage)
    ensures
        voice_subject_spec(msg) == Some(s.public_key) ==> !forwards_voice_spec(s, channel_id, msg),
        s.voice_channel != Some(channel_id) ==> !forwards_voice_spec(s, channel_id, msg),
{
}

/// Joining a voice channel puts the session in it; leaving any takes it out.
pub proof fn law_voice_join_leave(s: SessionView, channel_id: String, udp_port: u16, left: String)
    ensures
        apply_spec(s, WsClientMessage::VoiceJoin { channel_id, udp_port }).voice_channel == Some(channel_id@),
        apply_spec(apply_spec(s, WsClientMessage::VoiceJoin { channel_id, udp_port }), WsClientMessage::VoiceLeave { channel_id: left }).voice_channel is None,
{
}

/// A direct message never goes back to its sender.
pub proof fn law_no_dm_echo(s: SessionView, conversation_id: Seq<char>)
    ensures
        !forwards_dm_spec(s, s.public_key, conversation_id),
{
}

/// A session in a voice channel is sent every voice event of that channel
/// that is about another user: joins, leaves and speaking alike.
pub proof fn law_voice_events_of_others_reach(s: SessionView, channel_id: Seq<char>, msg: WsServerMessage)
    requires
        s.voice_channel == Some(channel_id),
        voice_subject_spec(msg) is Some,
        voice_subject_spec(msg) != Some(s.public_key),
    ensures
        forwards_voice_spec(s, channel_id, msg),
{
}

/// A session is sent the chat of every channel it subscribed to and, once
/// it follows every channel, of every channel; it is sent each direct
/// message of its conversations that another user sent.
pub proof fn law_session_receives_its_events(s: SessionView, channel_id: Seq<char>, sender: Seq<char>, conversation_id: Seq<char>)
    ensures
        s.subscribed.contains(channel_id) || s.subscribe_all ==> forwards_chat_spec(s, channel_id),
        !s.subscribed.contains(channel_id) && !s.subscribe_all ==> !forwards_chat_spec(s, channel_id),
        s.conversations.contains(conversation_id) && sender != s.public_key ==> forwards_dm_spec(s, sender, conversation_id),
        !s.conversations.contains(conversation_id) ==> !forwards_dm_spec(s, sender, conversation_id),
{
}

} // verus!
