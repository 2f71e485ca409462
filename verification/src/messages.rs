//! Channel message rules: who may post, edit and delete, and how much one
//! page of history holds.

use vstd::prelude::*;

use crate::text::str_eq;

verus! {

/// Send-message request.
#[derive(Clone, Debug)]
pub struct SendMessageRequest {
    pub content: String,
}

/// A channel message.
#[derive(Clone, Debug)]
pub struct MessageResponse {
    pub id: String,
    pub channel_id: String,
    pub sender: String,
    pub sender_name: Option<String>,
    pub content: String,
    pub created_at: i64,
}

/// A new message, broadcast to a channel's subscribers.
#[derive(Clone, Debug)]
pub struct ChatEvent {
    pub channel_id: String,
    pub message: MessageResponse,
}

/// History paging: messages before the one with id `before`, at most `limit`.
#[derive(Clone, Debug)]
pub struct PaginationParams {
    pub before: Option<String>,
    pub limit: Option<i64>,
}

/// Why a message request was refused.
#[derive(Clone, Copy, Debug, PartialEq, Eq, Structural)]
pub enum MessageRejection {
    /// The user lacks the needed permission.
    Forbidden,
    /// The user is muted hub-wide.
    Muted,
    /// The user is banned from the channel.
    ChannelBanned,
    /// No such channel.
    ChannelNotFound,
    /// No such message.
    MessageNotFound,
    /// The message belongs to another channel.
    NotInChannel,
    /// Only the author may edit a message.
    NotAuthor,
}

impl MessageRejection {
    /// The HTTP status of the rejection.
    pub fn status(&self) -> (res: u16)
        ensures
            res == match self {
                MessageRejection::ChannelNotFound | MessageRejection::MessageNotFound
                | MessageRejection::NotInChannel => 404u16,
                _ => 403u16,
            },
    {
        match self {
            MessageRejection::ChannelNotFound | MessageRejection::MessageNotFound
            | MessageRejection::NotInChannel => 404,
            _ => 403,
        }
    }
}

/// Who may post in a channel: a user with the send permission, not muted,
/// not banned from the channel, in a channel that exists.
pub fn check_send_message(can_send: bool, muted: bool, channel_banned: bool, channel_exists: bool) -> (res: Result<(), MessageRejection>)
    ensures
        res == if !can_send {
            Err(MessageRejection::Forbidden)
        } else if muted {
            Err(MessageRejection::Muted)
        } else if channel_banned {
            Err(MessageRejection::ChannelBanned)
        } else if !channel_exists {
            Err(MessageRejection::ChannelNotFound)
        } else {
            Ok(())
        },
{
    if !can_send {
        Err(MessageRejection::Forbidden)
    } else if muted {
        Err(MessageRejection::Muted)
    } else if channel_banned {
        Err(MessageRejection::ChannelBanned)
    } else if !channel_exists {
        Err(MessageRejection::ChannelNotFound)
    } else {
        Ok(())
    }
}

/// Who may edit a message: its author, in the channel it belongs to.
/// `message` is the stored (sender, channel) of the message.
pub open spec fn edit_check_spec(message: Option<(Seq<char>, Seq<char>)>, channel_id: Seq<char>, user: Seq<char>) -> Result<(), MessageRejection> {
    match message {
        None => Err(MessageRejection::MessageNotFound),
        Some((sender, channel)) => if channel != channel_id {
            Err(MessageRejection::NotInChannel)
        } else if sender != user {
            Err(MessageRejection::NotAuthor)
        } else {
            Ok(())
        },
    }
}

/// The stored (sender, channel) of a message, as text.
pub open spec fn message_view(message: Option<(String, String)>) -> Option<(Seq<char>, Seq<char>)> {
    match message {
        None => None,
        Some((s, c)) => Some((s@, c@)),
    }
}

/// Checks a message edit.
pub fn check_edit_message(message: Option<(String, String)>, channel_id: &str, user: &str) -> (res: Result<(), MessageRejection>)
    ensures
        res == edit_check_spec(message_view(message), channel_id@, user@),
{
    let (sender, channel) = match message {
        None => return Err(MessageRejection::MessageNotFound),
        Some(m) => m,
    };
    if !str_eq(channel.as_str(), channel_id) {
        return Err(MessageRejection::NotInChannel);
    }
    if !str_eq(sender.as_str(), user) {
        return Err(MessageRejection::NotAuthor);
    }
    Ok(())
}

/// Who may delete a message in its channel: its author always, anyone else
/// with the manage-messages permission.
pub open spec fn delete_check_spec(message: Option<(Seq<char>, Seq<char>)>, channel_id: Seq<char>, user: Seq<char>, can_manage: bool) -> Result<(), MessageRejection> {
    match message {
        None => Err(MessageRejection::MessageNotFound),
        Some((sender, channel)) => if channel != channel_id {
            Err(MessageRejection::NotInChannel)
        } else if sender != user && !can_manage {
            Err(MessageRejection::Forbidden)
        } else {
            Ok(())
        },
    }
}

/// Checks a message deletion.
pub fn check_delete_message(message: Option<(String, String)>, channel_id: &str, user: &str, can_manage: bool) -> (res: Result<(), MessageRejection>)
    ensures
        res == delete_check_spec(message_view(message), channel_id@, user@, can_manage),
{
    let (sender, channel) = match message {
        None => return Err(MessageRejection::MessageNotFound),
        Some(m) => m,
    };
    if !str_eq(channel.as_str(), channel_id) {
        return Err(MessageRejection::NotInChannel);
    }
    if !str_eq(sender.as_str(), user) && !can_manage {
        return Err(MessageRejection::Forbidden);
    }
    Ok(())
}

/// The size of one page of history: the requested limit (50 by default),
/// at most 100.
pub fn page_limit(limit: Option<i64>) -> (res: i64)
    ensures
        res == match limit {
            Some(l) => if l < 100 { l } else { 100 },
            None => 50,
        },
        res <= 100,
{
    let l = match limit {
        Some(l) => l,
        None => 50,
    };
    if l < 100 {
        l
    } else {
        100
    }
}

/// Only a message's author edits it; anyone else deletes it only with the
/// manage-messages permission; and neither reaches a message of another
/// channel.
pub proof fn law_message_ownership(message: Option<(Seq<char>, Seq<char>)>, channel_id: Seq<char>, user: Seq<char>, can_manage: bool)
    ensures
        edit_check_spec(message, channel_id, user) is Ok ==> message == Some((user, channel_id)),
        delete_check_spec(message, channel_id, user, can_manage) is Ok ==> {
            &&& message matches Some((s, c))
            &&& c == channel_id
            &&& (s == user || can_manage)
        },
{
}

} // verus!
