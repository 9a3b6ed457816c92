//! Message updates, and what the archive reads from them.

use crate::peer::{bare_id_from_raw_peer, Group, Peer, RawPeer};
use crate::peer_id::{is_identified, kind_of, PeerKind};
use crate::time::Timestamp;
use grammers_session::defs::PeerId;
use vstd::prelude::*;

#[allow(unused_imports)]
use crate::peer::raw_bare_id;
#[allow(unused_imports)]
use crate::peer_id::{dialog_id, has_bare_id, is_chat_id, peer_kind, unpacked_id};

verus! {

/// What a message replies to.
#[derive(Clone, Copy, Debug, PartialEq, Eq, Structural)]
pub enum ReplyHeader {
    Message { forum_topic: bool, reply_to_top_id: Option<i32>, reply_to_msg_id: Option<i32> },
    Story,
}

/// A message as a raw update carries it.
#[derive(Clone, Copy, Debug, PartialEq, Eq, Structural)]
pub enum RawMessage {
    Empty,
    Message { from_id: Option<RawPeer>, reply_to: Option<ReplyHeader> },
    Service { from_id: Option<RawPeer> },
}

/// A raw update.
#[derive(Debug)]
pub enum RawUpdate {
    NewMessage(RawMessage),
    NewChannelMessage(RawMessage),
    EditMessage(RawMessage),
    EditChannelMessage(RawMessage),
    DeleteMessages { messages: Vec<i32> },
    DeleteChannelMessages { channel_id: i64, messages: Vec<i32> },
    Other,
}

/// A message that was sent or edited, with the metadata of its chat and its sender as far as
/// they are known.
#[derive(Debug)]
pub struct MessageUpdate {
    pub id: i32,
    pub peer_id: PeerId,
    pub peer: Option<Peer>,
    pub sender: Option<Peer>,
    pub outgoing: bool,
    pub text: String,
    pub date: Timestamp,
    pub reply_to: Option<i32>,
    pub has_media: bool,
    pub raw: RawUpdate,
}

impl RawUpdate {
    /// The message that the update carries.
    pub open spec fn message(self) -> Option<RawMessage> {
        match self {
            RawUpdate::NewMessage(message) => Some(message),
            RawUpdate::NewChannelMessage(message) => Some(message),
            RawUpdate::EditMessage(message) => Some(message),
            RawUpdate::EditChannelMessage(message) => Some(message),
            _ => None,
        }
    }

    /// The update is about a message in a channel.
    pub open spec fn in_channel(self) -> bool {
        self is NewChannelMessage || self is EditChannelMessage
    }
}

/// The message that a raw update carries.
pub fn message_from_raw_update(raw: &RawUpdate) -> (res: Option<&RawMessage>)
    ensures
        match res {
            Some(message) => raw.message() == Some(*message),
            None => raw.message() is None,
        },
{
    match raw {
        RawUpdate::NewMessage(message) => Some(message),
        RawUpdate::NewChannelMessage(message) => Some(message),
        RawUpdate::EditMessage(message) => Some(message),
        RawUpdate::EditChannelMessage(message) => Some(message),
        _ => None,
    }
}

/// The topic in which a message stands: that of the thread, or else the message that it
/// replies to, where the reply is marked as one in a forum.
pub open spec fn message_topic(message: RawMessage) -> Option<i32> {
    match message {
        RawMessage::Message {
            reply_to: Some(ReplyHeader::Message { forum_topic, reply_to_top_id, reply_to_msg_id }),
            ..
        } => if !forum_topic {
            None
        } else if reply_to_top_id is Some {
            reply_to_top_id
        } else {
            reply_to_msg_id
        },
        _ => None,
    }
}

/// The topic in which a message stands.
pub fn extract_topic_from_message(message: &RawMessage) -> (res: Option<i32>)
    ensures
        res == message_topic(*message),
{
    match message {
        RawMessage::Message {
            reply_to: Some(ReplyHeader::Message { forum_topic, reply_to_top_id, reply_to_msg_id }),
            ..
        } => if *forum_topic {
            match reply_to_top_id {
                Some(top) => Some(*top),
                None => *reply_to_msg_id,
            }
        } else {
            None
        },
        _ => None,
    }
}

/// The topic of an update. Only a message in a channel has one.
pub open spec fn raw_topic(raw: RawUpdate) -> Option<i32> {
    if raw.in_channel() {
        message_topic(raw.message()->0)
    } else {
        None
    }
}

/// The topic of an update.
pub fn extract_topic_id_from_raw(raw: &RawUpdate) -> (res: Option<i32>)
    ensures
        res == raw_topic(*raw),
{
    match raw {
        RawUpdate::NewChannelMessage(message) => extract_topic_from_message(message),
        RawUpdate::EditChannelMessage(message) => extract_topic_from_message(message),
        _ => None,
    }
}

/// The messages that an update tells to be deleted, and their channel where it names one.
pub open spec fn raw_deletion(raw: RawUpdate) -> Option<(Option<i64>, Seq<i32>)> {
    match raw {
        RawUpdate::DeleteMessages { messages } => Some((None, messages@)),
        RawUpdate::DeleteChannelMessages { channel_id, messages } => Some(
            (Some(channel_id), messages@),
        ),
        _ => None,
    }
}

/// The messages that an update tells to be deleted, and their channel where it names one.
pub fn deleted_messages(raw: RawUpdate) -> (res: Option<(Option<i64>, Vec<i32>)>)
    ensures
        match res {
            Some((chat_id, messages)) => raw_deletion(raw) == Some((chat_id, messages@)),
            None => raw_deletion(raw) is None,
        },
{
    match raw {
        RawUpdate::DeleteMessages { messages } => Some((None, messages)),
        RawUpdate::DeleteChannelMessages { channel_id, messages } => Some(
            (Some(channel_id), messages),
        ),
        _ => None,
    }
}

impl MessageUpdate {
    /// The integer into which the identity of the chat is packed.
    pub open spec fn dialog(self) -> int {
        dialog_id(self.peer_id) as int
    }

    /// The identifier of the chat, without its kind.
    pub open spec fn chat_id(self) -> int {
        unpacked_id(self.dialog())
    }

    /// The sender that the raw message names.
    pub open spec fn raw_sender(self) -> Option<RawPeer> {
        match self.raw.message() {
            Some(RawMessage::Message { from_id, .. }) => from_id,
            Some(RawMessage::Service { from_id }) => from_id,
            _ => None,
        }
    }

    /// The sender of the message, or 0 where nothing tells it: the known sender, or else the
    /// one that the raw message names, or else the other side of a private chat.
    pub open spec fn sender_id(self) -> int {
        match (self.sender, self.raw_sender()) {
            (Some(sender), _) => sender.bare() as int,
            (None, Some(sender)) => raw_bare_id(sender) as int,
            (None, None) => if !self.outgoing && peer_kind(self.dialog()) is User {
                self.chat_id()
            } else {
                0
            },
        }
    }

    /// The identity that tells the sender is one of which grammers tells the bare identifier.
    pub open spec fn sender_identified(self) -> bool {
        match (self.sender, self.raw_sender()) {
            (Some(sender), _) => sender.in_range(),
            (None, Some(_)) => true,
            (None, None) => self.outgoing || has_bare_id(self.dialog()),
        }
    }

    /// The update names its chat by an identity of which grammers tells the bare identifier.
    pub open spec fn located(self) -> bool {
        has_bare_id(self.dialog())
    }

    /// The update can be stored: it names its chat and its sender by identities of which
    /// grammers tells the bare identifier, and its date is one that chrono represents.
    pub open spec fn wf(self) -> bool {
        &&& self.located()
        &&& self.sender_identified()
        &&& self.peer matches Some(Peer::Group(Group::Empty { id })) ==> is_chat_id(id as int)
        &&& self.date.valid()
    }

    /// Whether the update names its chat.
    pub fn check_located(&self) -> (res: bool)
        ensures
            res == self.located(),
    {
        is_identified(&self.peer_id)
    }

    /// Whether the update can be stored.
    pub fn check(&self) -> (res: bool)
        ensures
            res == self.wf(),
    {
        let sender = match &self.sender {
            Some(sender) => sender.check_range(),
            None => true,
        };
        let peer = match &self.peer {
            Some(Peer::Group(Group::Empty { id })) => 1 <= *id && *id <= 999_999_999_999,
            _ => true,
        };
        self.check_located() && sender && peer && self.date.check()
    }
}

/// The sender of a message, or 0 where nothing tells it.
pub fn extract_sender_id(message: &MessageUpdate) -> (res: i64)
    requires
        message.sender_identified(),
    ensures
        res == message.sender_id(),
{
    if let Some(sender) = &message.sender {
        return sender.id().bare_id();
    }
    let raw_sender: Option<&RawPeer> = match message_from_raw_update(&message.raw) {
        Some(RawMessage::Message { from_id, .. }) => from_id.as_ref(),
        Some(RawMessage::Service { from_id }) => from_id.as_ref(),
        _ => None,
    };
    if let Some(sender) = raw_sender {
        return bare_id_from_raw_peer(sender);
    }
    if !message.outgoing {
        match kind_of(message.peer_id) {
            PeerKind::User => return message.peer_id.bare_id(),
            PeerKind::UserSelf => return message.peer_id.bare_id(),
            _ => {},
        }
    }
    0
}

} // verus!
